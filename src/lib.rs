//! A personal diary kept as one dated file per day.
//!
//! The library holds the diary's rules: where the entry for a date lives, what
//! its title and tag blocks look like, and how each operation (init, new, add,
//! open, commit) reacts to what the file system reports. The file system, the
//! editor and git are driven by the caller, one action at a time.
pub mod config;
pub mod content;
pub mod diary;
pub mod errors;
pub mod ops;
pub mod utils;

pub use content::{
    entry_file_type_from_string, process_file_type, EntryFileType, MarkdownDiary, RstDiary,
};
pub use diary::Diary;
pub use utils::date::EntryDate;

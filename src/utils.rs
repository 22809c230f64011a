pub mod date;
pub mod editing;
pub mod file_system;

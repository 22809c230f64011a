//! The operations on a diary. Each is a state machine: it names the next thing
//! to do on disk or in the editor (an `Action`), and is told what came of it
//! (an `Event`), until it finishes.
use vstd::prelude::*;

use crate::errors::DiaryError;

pub mod add;
pub mod commit;
pub mod init;
pub mod new;
pub mod open;

verus! {

/// The kinds of I/O failure that the operations tell apart.
pub enum IoErrorKind {
    NotFound,
    AlreadyExists,
    Other,
}

/// An I/O failure: its kind, and the error itself, carried along unread.
pub struct IoFailure {
    pub kind: IoErrorKind,
    pub error: std::io::Error,
}

/// What an operation asks to be done next.
pub enum Action {
    /// Find out whether the path exists.
    CheckExists(String),
    /// Create the folder, whose parent must exist.
    CreateDir(String),
    /// Create the folder and the folders above it that are missing.
    CreateDirAll(String),
    /// Create the file, failing if it exists; it becomes the open file.
    CreateNewFile(String),
    /// Open the existing file for appending; it becomes the open file.
    OpenForAppend(String),
    /// Append the text to the open file.
    Write(String),
    /// Ask the editor for text, starting from the given text.
    SolicitText(String),
    /// Let the user edit the file in the editor.
    EditFile(String),
    /// Create an empty git repository in the folder.
    InitRepository(String),
    /// In the repository of the folder `repository`, stage the file at `path`
    /// (relative to that folder), write the index and build its tree; answer
    /// with `Event::Staged`.
    Stage { repository: String, path: String },
    /// In the repository of the folder `repository`, commit the tree with the
    /// id `tree` (in hex) with `message`: with the commit of `HEAD` as its
    /// parent when `on_head`, else as a first commit without parents.
    Commit { repository: String, tree: String, message: String, on_head: bool },
    /// Push `refs/heads/master` of the repository in the folder to the remote
    /// `origin`.
    Push(String),
    /// The operation is over, with this outcome.
    Finish(Result<(), DiaryError>),
}

/// What came of an action.
pub enum Event {
    /// Whether the path of `CheckExists` exists.
    Exists(bool),
    /// How any other action on disk ended.
    Done(Result<(), IoFailure>),
    /// What the editor returned for `SolicitText`.
    Text(Result<String, std::io::Error>),
    /// How `Stage` ended.
    Staged(Result<StagedTree, git2::Error>),
    /// How `InitRepository`, `Commit` or `Push` ended.
    Git(Result<(), git2::Error>),
}

/// The tree that staging built, and the tree of the commit at `HEAD` if
/// there is one, as hex ids.
pub struct StagedTree {
    pub head_tree: Option<String>,
    pub tree: String,
}

/// The error for a folder that could not be created: a missing parent means
/// that the diary's folder is gone.
pub fn folder_error(failure: IoFailure) -> (r: DiaryError)
    ensures
        failure.kind is NotFound ==> (r matches DiaryError::UnInitialised { source: Some(e) } && e
            == failure.error),
        !(failure.kind is NotFound) ==> (r matches DiaryError::IOError(e) && e == failure.error),
{
    match failure.kind {
        IoErrorKind::NotFound => DiaryError::UnInitialised { source: Some(failure.error) },
        _ => DiaryError::IOError(failure.error),
    }
}

/// The text as it is appended to an entry: followed by a newline.
pub open spec fn with_newline(content: Seq<char>) -> Seq<char> {
    content + "\n"@
}

/// Appends a newline to text that goes into an entry.
pub fn add_newline(content: String) -> (r: String)
    ensures
        r@ == with_newline(content@),
{
    let mut text = content;
    text.append("\n");
    text
}

} // verus!

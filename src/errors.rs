use vstd::prelude::*;

verus! {

/// Lets an I/O error of std travel inside the library's own errors and events,
/// unread.
#[verifier::external_type_specification]
#[verifier::external_body]
pub struct ExIoError(std::io::Error);

/// Lets an error of git2 travel inside the library's own errors and events,
/// unread.
#[verifier::external_type_specification]
#[verifier::external_body]
pub struct ExGitError(git2::Error);

/// Lets an error of anyhow travel inside a `CliError`, unread.
#[verifier::external_type_specification]
#[verifier::external_body]
pub struct ExAnyhowError(anyhow::Error);

/// What went wrong in an operation on the diary.
#[derive(Debug)]
pub enum DiaryError {
    /// `init` was asked for while the recorded diary folder already exists.
    ExistsElsewhere,
    /// `init` was asked for where a `diary` folder already exists.
    ExistsHere,
    /// The diary has not been initialised, or its folder has gone.
    UnInitialised { source: Option<std::io::Error> },
    /// A file system failure that none of the other kinds describes.
    IOError(std::io::Error),
    /// The entry for the date has not been created.
    NoEntry { source: Option<std::io::Error> },
    /// The entry for the date has already been created.
    EntryAlreadyExists { source: Option<std::io::Error> },
    /// The text to add was empty.
    NoContent,
    /// The code of a file type is neither `md` nor `rst`.
    BadFileType,
    /// A step in git failed: opening or creating the repository, staging,
    /// committing or pushing.
    GitError(git2::Error),
}

/// An error as the command line reports it: a message, if any, and the exit
/// code of the process.
pub struct CliError {
    pub error: Option<anyhow::Error>,
    pub exit_code: i32,
}

impl CliError {
    pub fn new(error: anyhow::Error, code: i32) -> (r: Self)
        ensures
            r.error == Some(error),
            r.exit_code == code,
    {
        Self { error: Some(error), exit_code: code }
    }

    /// An error that only sets the exit code.
    pub fn code(code: i32) -> (r: Self)
        ensures
            r.error is None,
            r.exit_code == code,
    {
        Self { error: None, exit_code: code }
    }
}

} // verus!

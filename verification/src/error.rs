//! The errors that planning and applying a commit can give.

use vstd::prelude::*;

verus! {

/// What went wrong.
#[derive(Clone, Copy, PartialEq, Eq, Structural, Debug)]
pub enum ErrorKind {
    /// A value is not valid for the table.
    DataInvalid,
    /// The table is no longer what the commit was planned against.
    CatalogCommitConflicts,
}

/// An error, and whether a fresh attempt may succeed.
#[derive(Debug)]
pub struct Error {
    pub kind: ErrorKind,
    pub message: String,
    pub retryable: bool,
}

/// The contents of an [`Error`].
pub struct ErrorView {
    pub kind: ErrorKind,
    pub message: Seq<char>,
    pub retryable: bool,
}

impl View for Error {
    type V = ErrorView;

    open spec fn view(&self) -> ErrorView {
        ErrorView { kind: self.kind, message: self.message@, retryable: self.retryable }
    }
}

/// The error of a value that is not valid.
pub open spec fn invalid(message: &str) -> ErrorView {
    ErrorView { kind: ErrorKind::DataInvalid, message: message@, retryable: false }
}

/// The error of a commit that came too late.
pub open spec fn conflict(message: &str) -> ErrorView {
    ErrorView { kind: ErrorKind::CatalogCommitConflicts, message: message@, retryable: true }
}

impl Error {
    /// An error that no retry can mend.
    pub fn new(kind: ErrorKind, message: &str) -> (error: Error)
        ensures
            error@ == (ErrorView { kind, message: message@, retryable: false }),
    {
        Error { kind, message: message.to_owned(), retryable: false }
    }

    /// Says whether a fresh attempt may succeed.
    pub fn with_retryable(self, retryable: bool) -> (error: Error)
        ensures
            error@ == (ErrorView { retryable, ..self@ }),
    {
        Error { kind: self.kind, message: self.message, retryable }
    }
}

} // verus!

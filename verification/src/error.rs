//! The error type that the library's fallible operations return.

use vstd::prelude::*;

verus! {

/// What went wrong, by category.
#[derive(Copy, Clone, Debug, PartialEq, Eq, Structural)]
pub enum ErrorKind {
    /// The thing asked for is not on record.
    NotFound,
    /// The instance does not offer the operation.
    UnsupportedOperation,
    /// The request cannot be served as it stands.
    BadRequest,
    /// The requester may not do this.
    Unauthorized,
    /// Something failed inside the host.
    Internal,
}

/// An error with its category and a message for the operator.
#[derive(Debug)]
pub struct Error {
    pub kind: ErrorKind,
    pub source: String,
}

/// Mathematical model of an [`Error`].
pub struct ErrorView {
    pub kind: ErrorKind,
    pub source: Seq<char>,
}

impl View for Error {
    type V = ErrorView;

    open spec fn view(&self) -> ErrorView {
        ErrorView { kind: self.kind, source: self.source@ }
    }
}

impl Error {
    /// The message, for display.
    pub fn to_string(&self) -> (text: String)
        ensures
            text@ == self@.source,
    {
        self.source.clone()
    }
}

} // verus!

//! The error value that every fallible operation of the library returns.

use vstd::prelude::*;

verus! {

/// What went wrong, by category.
#[derive(Clone, Copy, Debug, PartialEq, Eq, Structural)]
pub enum ErrorKind {
    /// The named thing is not known.
    NotFound,
    /// The named thing is there already.
    AlreadyExists,
    /// A built-in was asked to change.
    PermissionDenied,
    /// A malformed payload, or a state that is not ready.
    InvalidInput,
    /// Stored data could not be read back.
    InvalidData,
    /// The platform cannot do what was asked.
    Unsupported,
    /// A network, filesystem or backend failure.
    Other,
}

/// An error: its kind and a message for the operator.
#[derive(Clone, Debug)]
pub struct Error {
    pub kind: ErrorKind,
    pub message: String,
}

impl Error {
    /// An error of the given kind with the given message.
    pub fn new(kind: ErrorKind, message: String) -> (out: Error)
        ensures
            out.kind == kind,
            out.message@ == message@,
    {
        Error { kind, message }
    }

    /// An error of kind `Other` with the given message.
    pub fn other(message: String) -> (out: Error)
        ensures
            out.kind == ErrorKind::Other,
            out.message@ == message@,
    {
        Error { kind: ErrorKind::Other, message }
    }

    /// The kind of this error.
    pub fn kind(&self) -> (out: ErrorKind)
        ensures
            out == self.kind,
    {
        self.kind
    }

    /// The message of this error.
    pub fn to_string(&self) -> (out: String)
        ensures
            out@ == self.message@,
    {
        self.message.clone()
    }
}

} // verus!

//! Errors that the engine reports to its clients.

use vstd::prelude::*;

verus! {

/// The category of a failure.
#[derive(Clone, Copy, Debug, PartialEq, Eq, Structural)]
pub enum ErrorKind {
    IllegalDataType,
    UnknownDatabase,
    UnknownTable,
    BadArguments,
    AlreadyExists,
    NotFound,
    Aborted,
    Internal,
}

/// A failure: its category and a message for the client.
#[derive(Debug, PartialEq, Eq)]
pub struct ErrorCode {
    pub kind: ErrorKind,
    pub message: String,
}

impl ErrorCode {
    /// An error of the given category that carries `message`.
    pub fn create(kind: ErrorKind, message: String) -> (e: ErrorCode)
        ensures
            e.kind == kind,
            e.message@ == message@,
    {
        ErrorCode { kind, message }
    }

    /// The category of this error.
    pub fn kind(&self) -> (k: ErrorKind)
        ensures
            k == self.kind,
    {
        self.kind
    }

    /// The message, as a fresh string.
    pub fn message(&self) -> (m: String)
        ensures
            m@ == self.message@,
    {
        self.message.clone()
    }

    /// Cancellation is reported as an error of its own kind, which callers
    /// treat as a normal end and not as a failure.
    pub fn is_aborted(&self) -> (b: bool)
        ensures
            b == (self.kind == ErrorKind::Aborted),
    {
        self.kind == ErrorKind::Aborted
    }
}

} // verus!

//! The failures that registry operations report.

use vstd::prelude::*;

verus! {

/// The kinds of failure.
#[derive(Debug, Clone, Copy, PartialEq, Eq, Structural)]
pub enum ErrorKind {
    /// An id was registered twice.
    Conflict,
    /// An operation named an id that is not registered.
    NotFound,
    /// A worker or shell could not be started.
    SpawnFailure,
    /// Writing to, flushing or reading from a pipe or terminal failed.
    IoError,
    /// Data did not have the form that the protocol asks for.
    ProtocolError,
    /// A shared lock was left unusable by an earlier failure.
    LockError,
    /// A command was handed to an operation that cannot carry it out.
    InvalidCommand,
}

/// A failure with the message that is shown to the user.
#[derive(Debug, Clone)]
pub struct Failure {
    pub kind: ErrorKind,
    pub message: String,
}

impl Failure {
    /// A failure of the given kind whose message is `message`.
    pub fn new(kind: ErrorKind, message: &str) -> (failure: Failure)
        ensures
            failure.kind == kind,
            failure.message@ == message@,
    {
        Failure { kind, message: message.to_owned() }
    }

    /// A failure whose message is `before`, then `subject`.
    pub fn naming(kind: ErrorKind, before: &str, subject: &str) -> (failure: Failure)
        ensures
            failure.kind == kind,
            failure.message@ == before@ + subject@,
    {
        let mut message = before.to_owned();
        message.append(subject);
        Failure { kind, message }
    }

    /// A failure whose message is `before`, then `subject`, then `after`.
    pub fn about(kind: ErrorKind, before: &str, subject: &str, after: &str) -> (failure: Failure)
        ensures
            failure.kind == kind,
            failure.message@ == before@ + subject@ + after@,
    {
        let mut message = before.to_owned();
        message.append(subject);
        message.append(after);
        Failure { kind, message }
    }

    /// The message, as the user sees it.
    pub fn to_string(&self) -> (message: String)
        ensures
            message@ == self.message@,
    {
        self.message.clone()
    }
}

} // verus!

//! The error with which a read or a subscription fails.

use vstd::prelude::*;

verus! {

/// The stage at which an operation failed.
#[derive(Debug, PartialEq, Eq, Structural, Clone, Copy, Hash)]
pub enum ErrorKind {
    /// No connection to the session bus could be opened.
    Connection,
    /// A method call failed and the version fallback did not resolve it.
    MethodCall,
    /// The signal filter could not be registered.
    SignalRegistration,
}

/// A failure together with what caused it. The cause is whatever the bus
/// client reports for a failed operation; it is carried to the caller as it
/// came.
#[derive(Debug, PartialEq, Eq)]
pub struct Error<C> {
    /// The stage that failed.
    pub kind: ErrorKind,
    /// What the bus client reported.
    pub cause: C,
}

impl<C> Error<C> {
    /// Wraps `cause` as a failure of the stage `kind`.
    pub fn new(kind: ErrorKind, cause: C) -> (error: Self)
        ensures
            error == (Error { kind, cause }),
    {
        Error { kind, cause }
    }

    /// The stage that failed.
    pub fn kind(&self) -> (kind: ErrorKind)
        ensures
            kind == self.kind,
    {
        self.kind
    }

    /// What the bus client reported.
    pub fn cause(&self) -> (cause: &C)
        ensures
            *cause == self.cause,
    {
        &self.cause
    }

    /// Gives up the wrapper and hands out what the bus client reported.
    pub fn into_cause(self) -> (cause: C)
        ensures
            cause == self.cause,
    {
        self.cause
    }
}

} // verus!

//! The errors of the timer.

use vstd::prelude::*;

verus! {

/// Why the timer failed.
#[derive(Debug, PartialEq, Eq, Clone, Copy, Structural)]
pub enum ErrorKind {
    /// The timer has shut down.
    Shutdown,
}

/// The error of the timer.
#[derive(Debug, PartialEq, Eq, Clone, Copy, Structural)]
pub struct Error {
    /// The kind of the error.
    pub kind: ErrorKind,
}

impl Error {
    /// The error of a timer that has shut down.
    #[verifier::allow_in_spec]
    pub fn shutdown() -> Error
        returns
            (Error { kind: ErrorKind::Shutdown }),
    {
        Error { kind: ErrorKind::Shutdown }
    }

    /// The message of the error.
    pub fn message(&self) -> (m: &'static str)
        ensures
            m@ == "the timer has shut down"@,
    {
        match self.kind {
            ErrorKind::Shutdown => "the timer has shut down",
        }
    }
}

} // verus!

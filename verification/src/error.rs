//! Errors: operating-system error numbers and the errors of the driver.

use vstd::prelude::*;

verus! {

/// Interrupted system call.
pub const EINTR: i32 = 4;

/// Device or resource busy.
pub const EBUSY: i32 = 16;

/// Invalid argument.
pub const EINVAL: i32 = 22;

/// An error number of the operating system, as a positive integer.
#[derive(Debug, PartialEq, Eq, Clone, Copy, Structural)]
pub struct Errno {
    /// The error number.
    pub code: i32,
}

impl Errno {
    /// The error with the given number.
    #[verifier::allow_in_spec]
    pub fn from_raw_os_error(code: i32) -> Errno
        returns
            (Errno { code }),
    {
        Errno { code }
    }

    /// The number of the error.
    #[verifier::allow_in_spec]
    pub fn raw_os_error(&self) -> i32
        returns
            self.code,
    {
        self.code
    }
}

/// The result code of a completion as a result: a code that is not negative
/// is the success value, and a negative code is the negated error number.
/// The one negative code that has no positive counterpart stands for the
/// largest error number.
pub open spec fn spec_decode(result: i32) -> Result<u32, Errno> {
    if result >= 0 {
        Ok(result as u32)
    } else if result == i32::MIN {
        Err(Errno { code: i32::MAX })
    } else {
        Err(Errno { code: (-result) as i32 })
    }
}

/// Decodes the result code of a completion.
#[verifier::when_used_as_spec(spec_decode)]
pub fn decode(result: i32) -> (r: Result<u32, Errno>)
    ensures
        r == spec_decode(result),
{
    if result >= 0 {
        Ok(result as u32)
    } else if result == i32::MIN {
        Err(Errno { code: i32::MAX })
    } else {
        Err(Errno { code: 0 - result })
    }
}

/// Operation would block: try again.
pub const EAGAIN: i32 = 11;

/// Why a request was not submitted.
#[derive(Debug, PartialEq, Eq, Clone, Copy, Structural)]
pub enum SubmitErrorKind {
    /// The driver is draining or has shut down.
    ShuttingDown,
}

/// The error of a submission.
#[derive(Debug, PartialEq, Eq, Clone, Copy, Structural)]
pub struct SubmitError {
    /// The kind of the error.
    pub kind: SubmitErrorKind,
}

impl SubmitError {
    /// The error of a submission to a driver that is not running.
    #[verifier::allow_in_spec]
    pub fn shutting_down() -> Self
        returns
            (SubmitError { kind: SubmitErrorKind::ShuttingDown }),
    {
        SubmitError { kind: SubmitErrorKind::ShuttingDown }
    }

    /// The kind of the error.
    #[verifier::allow_in_spec]
    pub fn kind(&self) -> SubmitErrorKind
        returns
            self.kind,
    {
        self.kind
    }

    /// The message of the error.
    pub fn message(&self) -> (m: &'static str)
        ensures
            m@ == "reactor is shutting down"@,
    {
        match self.kind {
            SubmitErrorKind::ShuttingDown => "reactor is shutting down",
        }
    }
}

/// The error of an operation: an error of the operating system, or the
/// refusal of the driver to submit the request.
#[derive(Debug, PartialEq, Eq, Clone, Copy, Structural)]
pub enum IoError {
    /// The operating system returned this error.
    Os(Errno),
    /// The request was not submitted.
    Submit(SubmitError),
}

} // verus!

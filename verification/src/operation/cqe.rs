//! Completions as plain values.

use vstd::prelude::*;
use crate::error::{decode, Errno};

verus! {

/// The flag of a completion that announces more completions of the same
/// request.
pub const CQE_F_MORE: u32 = 2;

/// `io_uring::cqueue::more`: whether the flags of a completion announce
/// more completions of the same request, which is the case exactly if the
/// flag for it is set.
pub assume_specification[ io_uring::cqueue::more ](flags: u32) -> (r: bool)
    ensures
        r == (flags & CQE_F_MORE != 0),
;

/// A completion as it comes out of the completion queue.
#[derive(Debug, PartialEq, Eq, Clone, Copy, Structural)]
pub struct Completion {
    /// The tag of the request.
    pub user_data: u64,
    /// The result code: an error number, negated, or a success value.
    pub result: i32,
    /// The flags.
    pub flags: u32,
}

/// The result of one completion, as an operation sees it.
#[derive(Debug, PartialEq, Eq, Clone, Copy)]
pub struct CQEResult {
    /// The success value, or the error.
    pub result: Result<u32, Errno>,
    /// The flags.
    pub flags: u32,
}

impl CQEResult {
    /// The result with the given result code and flags.
    pub open spec fn spec_new(result: i32, flags: u32) -> CQEResult {
        CQEResult { result: decode(result), flags }
    }

    /// The result with the given result code and flags.
    #[verifier::when_used_as_spec(spec_new)]
    pub fn new(result: i32, flags: u32) -> (r: CQEResult)
        ensures
            r == CQEResult::new(result, flags),
    {
        CQEResult { result: decode(result), flags }
    }

    /// Whether more completions of the same request will follow.
    pub open spec fn spec_more(&self) -> bool {
        self.flags & CQE_F_MORE != 0
    }

    /// Whether more completions of the same request will follow.
    #[verifier::when_used_as_spec(spec_more)]
    pub fn more(&self) -> (r: bool)
        ensures
            r == self.more(),
    {
        io_uring::cqueue::more(self.flags)
    }
}

} // verus!

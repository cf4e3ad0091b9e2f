//! The tags that the driver keeps for itself.
//!
//! Every submission carries a tag, which comes back with its completions.
//! The tags up to [`RESERVED_TOKENS`] belong to the driver; every other tag
//! names an operation record.

use vstd::prelude::*;

verus! {

/// The tag of the request that signals that the driver has drained all
/// requests.
pub const DRAIN_TOKEN: u64 = 1;

/// The tag of the read that waits for the unparker.
pub const UNPARKER_WAKE_TOKEN: u64 = 2;

/// The tag of cancellation requests.
pub const CANCELLATION_TOKEN: u64 = 3;

/// The tag of requests that close a descriptor.
pub const CLOSE_FD_TOKEN: u64 = 4;

/// The largest tag that is kept for the driver.
pub const RESERVED_TOKENS: u64 = 1024;

/// What the tag of a completion stands for.
#[derive(Debug, PartialEq, Eq, Clone, Copy, Structural)]
pub enum Token {
    /// The driver has drained all requests.
    Drain,
    /// The unparker was woken.
    UnparkerWake,
    /// A cancellation request failed.
    Cancellation,
    /// A descriptor could not be closed.
    CloseFd,
    /// A tag that is kept for the driver and not in use.
    Reserved,
    /// The tag of an operation record.
    Record,
}

/// What the tag `user_data` stands for.
pub open spec fn spec_classify(user_data: u64) -> Token {
    if user_data == DRAIN_TOKEN {
        Token::Drain
    } else if user_data == UNPARKER_WAKE_TOKEN {
        Token::UnparkerWake
    } else if user_data == CANCELLATION_TOKEN {
        Token::Cancellation
    } else if user_data == CLOSE_FD_TOKEN {
        Token::CloseFd
    } else if user_data <= RESERVED_TOKENS {
        Token::Reserved
    } else {
        Token::Record
    }
}

/// What the tag `user_data` stands for.
#[verifier::when_used_as_spec(spec_classify)]
pub fn classify(user_data: u64) -> (t: Token)
    ensures
        t == spec_classify(user_data),
{
    if user_data == DRAIN_TOKEN {
        Token::Drain
    } else if user_data == UNPARKER_WAKE_TOKEN {
        Token::UnparkerWake
    } else if user_data == CANCELLATION_TOKEN {
        Token::Cancellation
    } else if user_data == CLOSE_FD_TOKEN {
        Token::CloseFd
    } else if user_data <= RESERVED_TOKENS {
        Token::Reserved
    } else {
        Token::Record
    }
}

/// A tag is that of an operation record exactly if it is larger than every
/// tag that is kept for the driver.
pub proof fn law_reserved_tokens(user_data: u64)
    ensures
        classify(user_data) == Token::Record <==> user_data > RESERVED_TOKENS,
        classify(DRAIN_TOKEN) == Token::Drain,
        classify(UNPARKER_WAKE_TOKEN) == Token::UnparkerWake,
        classify(CANCELLATION_TOKEN) == Token::Cancellation,
        classify(CLOSE_FD_TOKEN) == Token::CloseFd,
{
}

} // verus!

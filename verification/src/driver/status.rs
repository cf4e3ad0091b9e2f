//! The life cycle of the driver.

use vstd::prelude::*;

verus! {

/// The status of the driver. It only ever moves forward:
/// `Running`, then `Draining`, then `Shutdown`.
#[derive(Debug, PartialEq, Eq, Clone, Copy, Structural)]
pub enum Status {
    /// The driver is running and accepting new requests.
    Running,
    /// The driver is draining and will not accept new requests.
    Draining,
    /// The driver has shut down and will not accept new requests.
    Shutdown,
}

impl Status {
    /// The position of a status in the life cycle.
    pub open spec fn rank(self) -> nat {
        match self {
            Status::Running => 0,
            Status::Draining => 1,
            Status::Shutdown => 2,
        }
    }

    /// Whether new requests are accepted.
    pub fn accepts_requests(self) -> (r: bool)
        ensures
            r == (self == Status::Running),
    {
        self == Status::Running
    }
}

} // verus!

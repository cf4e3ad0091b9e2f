//! The unparker: the wake file through which another thread wakes the
//! parked driver.
//!
//! The driver keeps at most one read on the wake file in the ring. A wake
//! writes to the file, which completes the read.

use vstd::prelude::*;

verus! {

/// The state of the unparker.
#[derive(Debug, PartialEq, Eq, Clone, Copy, Structural)]
pub struct ParkState {
    /// A read on the wake file is in the ring.
    pub parked: bool,
    /// A wake has arrived that the driver has not seen.
    pub woken: bool,
}

impl ParkState {
    /// Whether a read on the wake file is in the ring.
    #[verifier::allow_in_spec]
    pub fn is_parked(&self) -> bool
        returns
            self.parked,
    {
        self.parked
    }

    /// Whether a wake has arrived that the driver has not seen.
    #[verifier::allow_in_spec]
    pub fn woken(&self) -> bool
        returns
            self.woken,
    {
        self.woken
    }
}

/// The unparker of a driver.
#[derive(Debug)]
pub struct Unparker {
    state: ParkState,
}

impl View for Unparker {
    type V = ParkState;

    closed spec fn view(&self) -> ParkState {
        self.state
    }
}

impl Unparker {
    /// An unparker without a read in the ring, and without a wake.
    pub fn new() -> (u: Self)
        ensures
            u@ == (ParkState { parked: false, woken: false }),
    {
        Unparker { state: ParkState { parked: false, woken: false } }
    }

    /// The state of the unparker, as the driver finds it when it is about
    /// to park.
    pub fn park(&self) -> (s: ParkState)
        ensures
            s == self@,
    {
        self.state
    }

    /// The read on the wake file is in the ring.
    pub fn armed(&mut self)
        ensures
            final(self)@ == (ParkState { parked: true, ..old(self)@ }),
    {
        self.state.parked = true;
    }

    /// The read on the wake file has completed: there is no read in the
    /// ring, and the wake that completed it has been seen.
    pub fn reset(&mut self)
        ensures
            final(self)@ == (ParkState { parked: false, woken: false }),
    {
        self.state = ParkState { parked: false, woken: false };
    }

    /// A wake arrives. The caller writes to the wake file.
    pub fn wake(&mut self)
        ensures
            final(self)@ == (ParkState { woken: true, ..old(self)@ }),
    {
        self.state.woken = true;
    }
}

} // verus!

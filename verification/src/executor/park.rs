//! Parking: what the executor does when no task is ready.

use vstd::prelude::*;
use crate::error::Errno;

verus! {

/// How long a park may block.
#[derive(Debug, PartialEq, Eq, Clone, Copy, Structural)]
pub struct Timeout {
    /// Whole seconds.
    pub secs: u64,
    /// The rest, in nanoseconds.
    pub nanos: u32,
}

/// How the executor wants to park.
#[derive(Debug, PartialEq, Eq, Clone, Copy, Structural)]
pub enum ParkMode {
    /// Do not block: there is work to do.
    NoPark,
    /// Block until the next completion.
    NextCompletion,
    /// Block until the next completion, but no longer than this.
    Timeout(Timeout),
}

impl ParkMode {
    /// Whether a park in this mode may block.
    #[verifier::allow_in_spec]
    pub fn blocks(&self) -> bool
        returns
            (*self != ParkMode::NoPark),
    {
        match self {
            ParkMode::NoPark => false,
            _ => true,
        }
    }

    /// The number of completions that a submission in this mode waits for:
    /// one if the mode may block, and none otherwise.
    #[verifier::allow_in_spec]
    pub fn wait_for(&self) -> usize
        returns
            (if self.blocks() {
                1usize
            } else {
                0usize
            }),
    {
        if self.blocks() {
            1
        } else {
            0
        }
    }

    /// The longest time that a submission in this mode waits, if the mode
    /// sets one.
    #[verifier::allow_in_spec]
    pub fn timeout(&self) -> Option<Timeout>
        returns
            (match *self {
                ParkMode::Timeout(t) => Some(t),
                _ => None,
            }),
    {
        match *self {
            ParkMode::Timeout(t) => Some(t),
            _ => None,
        }
    }
}

/// Wakes a parked executor, possibly from another thread.
pub trait Unpark {
    /// Wakes the executor.
    fn unpark(&self);
}

/// A source of events on which the executor blocks when it is idle.
pub trait Park {
    /// The handle that wakes the executor while it is parked.
    type Unparker;

    /// What stays alive while the executor drives a root computation.
    type Guard;

    /// Parks in the given mode.
    fn park(&mut self, mode: ParkMode) -> Result<(), Errno>;

    /// Enters the context of the park source.
    fn enter(&self) -> Self::Guard;

    /// The handle that wakes the executor.
    fn unparker(&self) -> Self::Unparker;

    /// Whether the executor should stop running tasks and park.
    fn needs_park(&self) -> bool;

    /// Shuts the park source down.
    fn shutdown(&mut self);
}

/// A park source that never blocks: the executor spins when there is no
/// work to do.
#[derive(Debug)]
pub struct SpinPark;

/// The handle that wakes a [`SpinPark`]: there is nothing to wake.
#[derive(Debug, Clone, Copy)]
pub struct NoopUnparker;

impl Unpark for NoopUnparker {
    fn unpark(&self) {
    }
}

impl Park for SpinPark {
    type Unparker = NoopUnparker;

    type Guard = ();

    fn park(&mut self, mode: ParkMode) -> (r: Result<(), Errno>)
        ensures
            r is Ok,
    {
        Ok(())
    }

    fn enter(&self) -> Self::Guard {
    }

    fn unparker(&self) -> Self::Unparker {
        NoopUnparker
    }

    fn needs_park(&self) -> (r: bool)
        ensures
            !r,
    {
        false
    }

    fn shutdown(&mut self) {
    }
}

} // verus!

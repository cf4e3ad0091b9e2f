//! The current driver of a thread.

use vstd::prelude::*;

verus! {

/// The slot for the handle of the current driver. It holds at most one
/// handle, and is entered and left in strict alternation.
pub struct DriverContext<H> {
    handle: Option<H>,
}

/// The proof that the context of a driver was entered. Leaving the context
/// takes it back.
#[derive(Debug)]
pub struct DriverContextGuard;

impl<H> View for DriverContext<H> {
    type V = Option<H>;

    closed spec fn view(&self) -> Option<H> {
        self.handle
    }
}

impl<H> DriverContext<H> {
    /// A context that is not entered.
    pub fn new() -> (c: Self)
        ensures
            c@ is None,
    {
        DriverContext { handle: None }
    }

    /// Whether the context is entered.
    pub fn is_entered(&self) -> (r: bool)
        ensures
            r == (self@ is Some),
    {
        self.handle.is_some()
    }

    /// Enters the context with `handle`. A context that is entered cannot be
    /// entered again before it is left.
    pub fn enter(&mut self, handle: H) -> (guard: DriverContextGuard)
        requires
            old(self)@ is None,
        ensures
            final(self)@ == Some(handle),
    {
        self.handle = Some(handle);
        DriverContextGuard
    }

    /// Returns the handle of the current driver.
    pub fn handle(&self) -> (h: Option<&H>)
        ensures
            match h {
                Some(handle) => self@ == Some(*handle),
                None => self@ is None,
            },
    {
        self.handle.as_ref()
    }

    /// Leaves the context, and returns the handle that it held.
    pub fn leave(&mut self, guard: DriverContextGuard) -> (handle: H)
        requires
            old(self)@ is Some,
        ensures
            final(self)@ is None,
            old(self)@ == Some(handle),
    {
        self.handle.take().unwrap()
    }
}

} // verus!

//! The current handle of a thread: a slot that holds at most one handle,
//! entered and left in strict alternation.

use vstd::prelude::*;

verus! {

/// The slot for the current handle.
pub struct Context<H> {
    handle: Option<H>,
}

/// The proof that a context was entered. Leaving the context takes it back.
#[derive(Debug)]
pub struct ContextGuard;

impl<H> View for Context<H> {
    type V = Option<H>;

    closed spec fn view(&self) -> Option<H> {
        self.handle
    }
}

impl<H> Context<H> {
    /// A context that is not entered.
    pub fn new() -> (c: Self)
        ensures
            c@ is None,
    {
        Context { handle: None }
    }

    /// Whether the context is entered.
    pub fn is_entered(&self) -> (r: bool)
        ensures
            r == (self@ is Some),
    {
        self.handle.is_some()
    }

    /// Enters the context with `handle`. A context that is entered cannot be
    /// entered again before it is left.
    pub fn enter(&mut self, handle: H) -> (guard: ContextGuard)
        requires
            old(self)@ is None,
        ensures
            final(self)@ == Some(handle),
    {
        self.handle = Some(handle);
        ContextGuard
    }

    /// Returns the current handle.
    pub fn handle(&self) -> (h: Option<&H>)
        ensures
            match h {
                Some(handle) => self@ == Some(*handle),
                None => self@ is None,
            },
    {
        self.handle.as_ref()
    }

    /// Leaves the context, and returns the handle that it held.
    pub fn leave(&mut self, guard: ContextGuard) -> (handle: H)
        requires
            old(self)@ is Some,
        ensures
            final(self)@ is None,
            old(self)@ == Some(handle),
    {
        self.handle.take().unwrap()
    }
}

} // verus!

//! The harness of the root computation: one bit that says whether the root
//! was woken since it was last polled.

use vstd::prelude::*;

verus! {

/// The wake state of the root computation.
#[derive(Debug)]
pub struct FutureHarness {
    notified: bool,
}

impl FutureHarness {
    /// Whether the root was woken since it was last polled.
    pub closed spec fn spec_is_notified(&self) -> bool {
        self.notified
    }

    /// The harness of a root that has not been polled yet: it is notified,
    /// so that the first poll happens.
    pub fn new() -> (h: Self)
        ensures
            h.is_notified(),
    {
        FutureHarness { notified: true }
    }

    /// Returns true if the root is to be polled.
    #[verifier::when_used_as_spec(spec_is_notified)]
    pub fn is_notified(&self) -> (r: bool)
        ensures
            r == self.is_notified(),
    {
        self.notified
    }

    /// The root is woken.
    pub fn wake(&mut self)
        ensures
            final(self).is_notified(),
    {
        self.notified = true;
    }

    /// Attempts a poll of the root. Returns whether the root is to be
    /// polled now: it is if it was notified, and the notification is used
    /// up by that.
    pub fn try_poll(&mut self) -> (poll: bool)
        ensures
            poll == old(self).is_notified(),
            !final(self).is_notified(),
    {
        let poll = self.notified;
        self.notified = false;
        poll
    }
}

} // verus!

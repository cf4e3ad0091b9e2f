//! File descriptors.
//!
//! A descriptor must not be closed while it is in use, be it by the
//! application or by the kernel, so descriptors are reference counted: the
//! descriptor is closed when the last reference to it goes.

use vstd::prelude::*;

verus! {

/// The two kinds of descriptor that the ring knows.
#[derive(Debug, PartialEq, Eq, Clone, Copy, Structural)]
pub enum FdKind {
    /// A descriptor of the process.
    Fd(i32),
    /// An index into the descriptors that were registered with the ring.
    Fixed(u32),
}

/// A reference-counted descriptor.
#[derive(Debug)]
pub struct NornFd {
    kind: FdKind,
    refcount: usize,
}

impl NornFd {
    /// The descriptor.
    pub closed spec fn spec_kind(&self) -> FdKind {
        self.kind
    }

    /// The number of references to the descriptor.
    pub closed spec fn spec_refcount(&self) -> usize {
        self.refcount
    }

    /// A reference-counted descriptor from a descriptor of the process,
    /// with one reference.
    pub fn from_fd(fd: i32) -> (r: Self)
        ensures
            r.kind() == FdKind::Fd(fd),
            r.refcount() == 1,
    {
        Self::new(FdKind::Fd(fd))
    }

    /// A reference-counted descriptor from a registered descriptor, with
    /// one reference.
    pub fn from_fixed(index: u32) -> (r: Self)
        ensures
            r.kind() == FdKind::Fixed(index),
            r.refcount() == 1,
    {
        Self::new(FdKind::Fixed(index))
    }

    fn new(kind: FdKind) -> (r: Self)
        ensures
            r.kind() == kind,
            r.refcount() == 1,
    {
        NornFd { kind, refcount: 1 }
    }

    /// The descriptor.
    #[verifier::when_used_as_spec(spec_kind)]
    pub fn kind(&self) -> (k: FdKind)
        ensures
            k == self.kind(),
    {
        self.kind
    }

    /// The number of references to the descriptor.
    #[verifier::when_used_as_spec(spec_refcount)]
    pub fn refcount(&self) -> (n: usize)
        ensures
            n == self.refcount(),
    {
        self.refcount
    }

    /// One more reference to the descriptor is made.
    pub fn acquire(&mut self)
        requires
            old(self).refcount() < usize::MAX,
        ensures
            final(self).kind() == old(self).kind(),
            final(self).refcount() == old(self).refcount() + 1,
    {
        self.refcount = self.refcount + 1;
    }

    /// A reference to the descriptor is given up. With the last reference
    /// the descriptor is to be closed, and is returned for that.
    pub fn release(&mut self) -> (close: Option<FdKind>)
        ensures
            final(self).kind() == old(self).kind(),
            final(self).refcount() == (if old(self).refcount() > 0 {
                old(self).refcount() - 1
            } else {
                0
            }),
            close == (if old(self).refcount() == 1 {
                Some(old(self).kind())
            } else {
                None
            }),
    {
        if self.refcount == 0 {
            None
        } else {
            self.refcount = self.refcount - 1;
            if self.refcount == 0 {
                Some(self.kind)
            } else {
                None
            }
        }
    }
}

} // verus!

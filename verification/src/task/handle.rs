//! The handles that refer to a task cell. Each handle stands for one
//! reference to the cell: none of them can be copied, and the queue counts
//! the references as handles are made and given up.

use vstd::prelude::*;

verus! {

/// A task that is ready to be run.
#[derive(Debug)]
pub struct Runnable {
    id: u64,
}

/// A task that is being run: the token between the two halves of a run.
#[derive(Debug)]
pub struct Running {
    id: u64,
}

/// The handle that observes the result of a task.
#[derive(Debug)]
pub struct JoinHandle {
    id: u64,
}

/// A handle that wakes a task.
#[derive(Debug)]
pub struct TaskWaker {
    id: u64,
}

impl Runnable {
    /// A handle to task `id`.
    pub(crate) fn new(id: u64) -> (h: Self)
        ensures
            h.id() == id,
    {
        Runnable { id }
    }

    /// The task that the handle refers to.
    pub closed spec fn spec_id(&self) -> u64 {
        self.id
    }

    /// The task that the handle refers to.
    #[verifier::when_used_as_spec(spec_id)]
    pub fn id(&self) -> (id: u64)
        ensures
            id == self.id(),
    {
        self.id
    }
}

impl Running {
    /// A handle to task `id`.
    pub(crate) fn new(id: u64) -> (h: Self)
        ensures
            h.id() == id,
    {
        Running { id }
    }

    /// The task that the handle refers to.
    pub closed spec fn spec_id(&self) -> u64 {
        self.id
    }

    /// The task that the handle refers to.
    #[verifier::when_used_as_spec(spec_id)]
    pub fn id(&self) -> (id: u64)
        ensures
            id == self.id(),
    {
        self.id
    }
}

impl JoinHandle {
    /// A handle to task `id`.
    pub(crate) fn new(id: u64) -> (h: Self)
        ensures
            h.id() == id,
    {
        JoinHandle { id }
    }

    /// The task that the handle refers to.
    pub closed spec fn spec_id(&self) -> u64 {
        self.id
    }

    /// The task that the handle refers to.
    #[verifier::when_used_as_spec(spec_id)]
    pub fn id(&self) -> (id: u64)
        ensures
            id == self.id(),
    {
        self.id
    }
}

impl TaskWaker {
    /// A handle to task `id`.
    pub(crate) fn new(id: u64) -> (h: Self)
        ensures
            h.id() == id,
    {
        TaskWaker { id }
    }

    /// The task that the handle refers to.
    pub closed spec fn spec_id(&self) -> u64 {
        self.id
    }

    /// The task that the handle refers to.
    #[verifier::when_used_as_spec(spec_id)]
    pub fn id(&self) -> (id: u64)
        ensures
            id == self.id(),
    {
        self.id
    }
}

} // verus!

//! The scheduling state of a task.

use vstd::prelude::*;

verus! {

/// The state bits of a task cell.
#[derive(Debug, PartialEq, Eq, Clone, Copy, Structural)]
pub struct State {
    /// A runnable for the task is in the ready queue, or is owed to it when
    /// the current run ends.
    pub scheduled: bool,
    /// The task is being polled.
    pub running: bool,
    /// The task has finished: its computation is gone.
    pub complete: bool,
    /// A join handle for the task exists.
    pub join_interest: bool,
    /// The join handle has left a wake handle in the cell.
    pub join_waker: bool,
    /// The task was aborted or shut down.
    pub cancelled: bool,
}

impl State {
    /// The state of a task that was just spawned: scheduled, with a join
    /// handle.
    #[verifier::allow_in_spec]
    pub fn spawned() -> State
        returns
            (State {
                scheduled: true,
                running: false,
                complete: false,
                join_interest: true,
                join_waker: false,
                cancelled: false,
            }),
    {
        State {
            scheduled: true,
            running: false,
            complete: false,
            join_interest: true,
            join_waker: false,
            cancelled: false,
        }
    }

    /// The state of a task that was spawned on a closed task set: cancelled
    /// before it ever ran.
    #[verifier::allow_in_spec]
    pub fn rejected() -> State
        returns
            (State {
                scheduled: false,
                running: false,
                complete: true,
                join_interest: true,
                join_waker: false,
                cancelled: true,
            }),
    {
        State {
            scheduled: false,
            running: false,
            complete: true,
            join_interest: true,
            join_waker: false,
            cancelled: true,
        }
    }

    /// Entering a run: the task is running and no longer scheduled.
    #[verifier::allow_in_spec]
    pub fn to_running(self) -> State
        returns
            (State { running: true, scheduled: false, ..self }),
    {
        State { running: true, scheduled: false, ..self }
    }

    /// Leaving a run in which the computation stayed pending.
    #[verifier::allow_in_spec]
    pub fn to_idle(self) -> State
        returns
            (State { running: false, ..self }),
    {
        State { running: false, ..self }
    }

    /// The task finishes: it is neither running nor scheduled any more, and
    /// the wake handle of the join side has been taken.
    #[verifier::allow_in_spec]
    pub fn to_complete(self) -> State
        returns
            (State { running: false, scheduled: false, complete: true, join_waker: false, ..self }),
    {
        State { running: false, scheduled: false, complete: true, join_waker: false, ..self }
    }

    /// The task finishes because it was cancelled.
    #[verifier::allow_in_spec]
    pub fn to_cancelled(self) -> State
        returns
            (State { cancelled: true, ..self.to_complete() }),
    {
        State { cancelled: true, ..self.to_complete() }
    }

    /// Whether a wake, or an abort, has to put a runnable into the ready
    /// queue: the task is neither complete nor running nor scheduled already.
    #[verifier::allow_in_spec]
    pub fn needs_runnable(self) -> bool
        returns
            (!self.complete && !self.running && !self.scheduled),
    {
        !self.complete && !self.running && !self.scheduled
    }

    /// A wake arrives. A task that is not complete becomes scheduled; for a
    /// running task that is the note that the run has to publish a runnable
    /// when it ends.
    #[verifier::allow_in_spec]
    pub fn wake(self) -> State
        returns
            (if self.complete {
                self
            } else {
                State { scheduled: true, ..self }
            }),
    {
        if self.complete {
            self
        } else {
            State { scheduled: true, ..self }
        }
    }

    /// The task is aborted: it is cancelled, and scheduled like after a wake
    /// so that its next run observes the cancellation.
    #[verifier::allow_in_spec]
    pub fn abort(self) -> State
        returns
            (State { cancelled: true, ..self.wake() }),
    {
        State { cancelled: true, ..self.wake() }
    }

    /// The invariant of the state bits: a complete task neither runs nor is
    /// scheduled.
    pub open spec fn wf(self) -> bool {
        self.complete ==> !self.running && !self.scheduled
    }
}

} // verus!

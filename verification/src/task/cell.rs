//! The task cell: reference count, state, body and join-side wake handle.

use vstd::prelude::*;
use crate::task::state::State;

verus! {

/// Why a join handle did not get the output of its task.
#[derive(Debug, PartialEq, Eq, Clone, Copy, Structural)]
pub enum JoinError {
    /// The task was aborted, or its task set was shut down, before it
    /// finished.
    Cancelled,
    /// The computation panicked while it was polled.
    Panicked,
}

impl JoinError {
    /// Whether the task was cancelled.
    pub fn is_cancelled(&self) -> (r: bool)
        ensures
            r == (*self == JoinError::Cancelled),
    {
        match self {
            JoinError::Cancelled => true,
            JoinError::Panicked => false,
        }
    }

    /// Whether the computation panicked.
    pub fn is_panic(&self) -> (r: bool)
        ensures
            r == (*self == JoinError::Panicked),
    {
        match self {
            JoinError::Cancelled => false,
            JoinError::Panicked => true,
        }
    }
}

/// What a task cell holds besides its header.
pub enum Body<T> {
    /// The computation is alive (it is kept by the caller).
    Future,
    /// The task has finished and its result waits for the join handle.
    Output(Result<T, JoinError>),
    /// Neither: the computation is gone, and so is the result.
    Empty,
}

/// What polling the computation of a task gave.
pub enum PollOutcome<T> {
    /// The computation is not finished.
    Pending,
    /// The computation finished with this output.
    Ready(T),
    /// The computation panicked.
    Panicked,
}

/// What entering a run asks of the caller.
#[derive(Debug, PartialEq, Eq, Clone, Copy, Structural)]
pub enum RunEntry {
    /// Poll the computation once, and report the outcome.
    Poll,
    /// The task was cancelled: drop the computation without polling it.
    Cancel,
    /// The task had finished before: there is nothing to do.
    Stale,
}

/// One task cell.
pub struct TaskCell<T, W> {
    /// The number of handles that refer to the cell.
    pub refcount: usize,
    /// The state bits.
    pub state: State,
    /// The body.
    pub body: Body<T>,
    /// The wake handle of the join side, if it waits.
    pub join_waker: Option<W>,
}

impl<T, W> TaskCell<T, W> {
    /// The invariant of a cell: it is referred to, a task holds its
    /// computation exactly as long as it is not complete, and the state says
    /// whether a join-side wake handle is held.
    pub open spec fn wf(self) -> bool {
        &&& self.refcount >= 1
        &&& self.state.wf()
        &&& self.state.complete <==> !(self.body is Future)
        &&& self.state.join_waker <==> self.join_waker is Some
    }

    /// The cell of a task that was just spawned, with `refs` handles.
    pub open spec fn spec_allocate(refs: usize) -> Self {
        TaskCell { refcount: refs, state: State::spawned(), body: Body::Future, join_waker: None }
    }

    /// The cell of a task whose computation was refused: cancelled, with the
    /// join handle as its only reference.
    pub open spec fn spec_rejected() -> Self {
        TaskCell { refcount: 1, state: State::rejected(), body: Body::Empty, join_waker: None }
    }

    /// A cell for a new task. It has two references, one for the task itself
    /// and one for the join handle.
    pub fn allocate() -> (c: Self)
        ensures
            c == Self::spec_allocate(2),
            c.wf(),
    {
        TaskCell { refcount: 2, state: State::spawned(), body: Body::Future, join_waker: None }
    }

    /// The reference count after one more handle was made. A count that has
    /// reached the largest value stays there.
    pub open spec fn spec_inc_ref(self) -> Self {
        if self.refcount < usize::MAX {
            TaskCell { refcount: (self.refcount + 1) as usize, ..self }
        } else {
            self
        }
    }

    /// The reference count after a handle was given up. A count that has
    /// reached the largest value stays there, and so does zero.
    pub open spec fn spec_dec_ref(self) -> Self {
        if 0 < self.refcount < usize::MAX {
            TaskCell { refcount: (self.refcount - 1) as usize, ..self }
        } else {
            self
        }
    }

    /// Counts one more handle.
    pub fn inc_ref(&mut self)
        ensures
            *final(self) == old(self).spec_inc_ref(),
    {
        if self.refcount < usize::MAX {
            self.refcount = self.refcount + 1;
        }
    }

    /// Counts one handle less. Returns `true` if no handle is left.
    pub fn dec_ref(&mut self) -> (last: bool)
        ensures
            *final(self) == old(self).spec_dec_ref(),
            last == (final(self).refcount == 0),
    {
        if 0 < self.refcount && self.refcount < usize::MAX {
            self.refcount = self.refcount - 1;
        }
        self.refcount == 0
    }

    /// What entering a run asks for.
    pub open spec fn run_entry(self) -> RunEntry {
        if self.state.complete {
            RunEntry::Stale
        } else if self.state.cancelled {
            RunEntry::Cancel
        } else {
            RunEntry::Poll
        }
    }

    /// The cell after a run was entered.
    pub open spec fn spec_begin_run(self) -> Self {
        match self.run_entry() {
            RunEntry::Stale => self,
            RunEntry::Cancel => TaskCell {
                state: self.state.to_cancelled(),
                body: Body::Empty,
                join_waker: None,
                ..self
            },
            RunEntry::Poll => TaskCell { state: self.state.to_running(), ..self },
        }
    }

    /// Enters a run. A task that was cancelled finishes here, without being
    /// polled: its computation is to be dropped, and the wake handle of the
    /// join side is returned to be woken.
    pub fn begin_run(&mut self) -> (r: (RunEntry, Option<W>))
        ensures
            *final(self) == old(self).spec_begin_run(),
            r.0 == old(self).run_entry(),
            r.1 == (if r.0 == RunEntry::Cancel {
                old(self).join_waker
            } else {
                None
            }),
    {
        if self.state.complete {
            (RunEntry::Stale, None)
        } else if self.state.cancelled {
            self.state = self.state.to_cancelled();
            self.body = Body::Empty;
            let waker = self.join_waker.take();
            (RunEntry::Cancel, waker)
        } else {
            self.state = self.state.to_running();
            (RunEntry::Poll, None)
        }
    }

    /// The body that a finished task is left with: its result if a join
    /// handle is there to take it, and nothing otherwise.
    pub open spec fn finished_body(self, result: Result<T, JoinError>) -> Body<T> {
        if self.state.join_interest {
            Body::Output(result)
        } else {
            Body::Empty
        }
    }

    /// The cell after the poll of a run gave `outcome`.
    pub open spec fn spec_finish_run(self, outcome: PollOutcome<T>) -> Self {
        if self.state.complete {
            self
        } else {
            match outcome {
                PollOutcome::Pending => TaskCell { state: self.state.to_idle(), ..self },
                PollOutcome::Ready(v) => TaskCell {
                    state: self.state.to_complete(),
                    body: self.finished_body(Ok(v)),
                    join_waker: None,
                    ..self
                },
                PollOutcome::Panicked => TaskCell {
                    state: self.state.to_complete(),
                    body: self.finished_body(Err(JoinError::Panicked)),
                    join_waker: None,
                    ..self
                },
            }
        }
    }

    /// Whether the run that ends with `outcome` owes the ready queue a
    /// runnable: the computation is still pending and a wake arrived while
    /// it was polled.
    pub open spec fn republishes(self, outcome: PollOutcome<T>) -> bool {
        !self.state.complete && outcome is Pending && self.state.scheduled
    }

    /// Whether the run that ends with `outcome` finishes the task.
    pub open spec fn finishes(self, outcome: PollOutcome<T>) -> bool {
        !self.state.complete && !(outcome is Pending)
    }

    /// Leaves a run. Returns whether a runnable is owed to the ready queue,
    /// whether the task finished, and the wake handle of the join side if
    /// the task finished while the join side was waiting.
    ///
    /// A task that was shut down while it ran stays as it is, and the
    /// outcome is dropped.
    pub fn finish_run(&mut self, outcome: PollOutcome<T>) -> (r: (bool, bool, Option<W>))
        ensures
            *final(self) == old(self).spec_finish_run(outcome),
            r.0 == old(self).republishes(outcome),
            r.1 == old(self).finishes(outcome),
            r.2 == (if r.1 {
                old(self).join_waker
            } else {
                None
            }),
    {
        if self.state.complete {
            return (false, false, None);
        }
        match outcome {
            PollOutcome::Pending => {
                let republish = self.state.scheduled;
                self.state = self.state.to_idle();
                (republish, false, None)
            },
            PollOutcome::Ready(v) => {
                self.body = if self.state.join_interest {
                    Body::Output(Ok(v))
                } else {
                    Body::Empty
                };
                self.state = self.state.to_complete();
                let waker = self.join_waker.take();
                (false, true, waker)
            },
            PollOutcome::Panicked => {
                self.body = if self.state.join_interest {
                    Body::Output(Err(JoinError::Panicked))
                } else {
                    Body::Empty
                };
                self.state = self.state.to_complete();
                let waker = self.join_waker.take();
                (false, true, waker)
            },
        }
    }

    /// The cell after a wake.
    pub open spec fn spec_wake(self) -> Self {
        TaskCell { state: self.state.wake(), ..self }
    }

    /// A wake arrives. Returns whether a runnable has to be put into the
    /// ready queue.
    pub fn wake(&mut self) -> (publish: bool)
        ensures
            *final(self) == old(self).spec_wake(),
            publish == old(self).state.needs_runnable(),
    {
        let publish = self.state.needs_runnable();
        self.state = self.state.wake();
        publish
    }

    /// The cell after an abort.
    pub open spec fn spec_abort(self) -> Self {
        TaskCell { state: self.state.abort(), ..self }
    }

    /// The task is aborted. Returns whether a runnable has to be put into
    /// the ready queue.
    pub fn abort(&mut self) -> (publish: bool)
        ensures
            *final(self) == old(self).spec_abort(),
            publish == old(self).state.needs_runnable(),
    {
        let publish = self.state.needs_runnable();
        self.state = self.state.abort();
        publish
    }

    /// What the join handle of a finished task receives.
    pub open spec fn join_result(self) -> Result<T, JoinError> {
        match self.body {
            Body::Output(r) => r,
            _ => Err(JoinError::Cancelled),
        }
    }

    /// The cell after its join handle was polled with `waker`.
    pub open spec fn spec_poll_join(self, waker: W) -> Self {
        if self.state.complete {
            TaskCell {
                state: State { join_interest: false, join_waker: false, ..self.state },
                body: if self.body is Future {
                    Body::Future
                } else {
                    Body::Empty
                },
                join_waker: None,
                ..self
            }
        } else {
            TaskCell {
                state: State { join_waker: true, ..self.state },
                join_waker: Some(waker),
                ..self
            }
        }
    }

    /// Polls the join side. For a finished task this takes the result out of
    /// the cell and ends the interest of the join handle; for any other task
    /// the wake handle is kept in the cell, in place of an earlier one, and
    /// `None` is returned.
    pub fn poll_join(&mut self, waker: W) -> (r: Option<Result<T, JoinError>>)
        ensures
            *final(self) == old(self).spec_poll_join(waker),
            r == (if old(self).state.complete {
                Some(old(self).join_result())
            } else {
                None
            }),
    {
        if self.state.complete {
            let mut body = Body::Empty;
            std::mem::swap(&mut self.body, &mut body);
            self.state.join_interest = false;
            self.state.join_waker = false;
            self.join_waker = None;
            match body {
                Body::Output(r) => Some(r),
                Body::Empty => Some(Err(JoinError::Cancelled)),
                Body::Future => {
                    self.body = Body::Future;
                    Some(Err(JoinError::Cancelled))
                },
            }
        } else {
            self.state.join_waker = true;
            self.join_waker = Some(waker);
            None
        }
    }

    /// The cell after its join handle was given up.
    pub open spec fn spec_drop_join(self) -> Self {
        TaskCell {
            state: State { join_interest: false, join_waker: false, ..self.state },
            body: if self.body is Future {
                Body::Future
            } else {
                Body::Empty
            },
            join_waker: None,
            ..self
        }
    }

    /// The join handle is given up: nobody will take the result, so a result
    /// that is there is dropped, and so is the wake handle of the join side.
    pub fn drop_join(&mut self)
        ensures
            *final(self) == old(self).spec_drop_join(),
    {
        self.state.join_interest = false;
        self.state.join_waker = false;
        self.join_waker = None;
        match self.body {
            Body::Future => {},
            _ => {
                self.body = Body::Empty;
            },
        }
    }

    /// The cell after its task set was shut down.
    pub open spec fn spec_shutdown(self) -> Self {
        if self.state.complete {
            self
        } else {
            TaskCell {
                state: self.state.to_cancelled(),
                body: Body::Empty,
                join_waker: None,
                ..self
            }
        }
    }

    /// The task set is shut down: a task that has not finished is cancelled
    /// and its computation is to be dropped. Returns the wake handle of the
    /// join side, if it was waiting.
    pub fn shutdown(&mut self) -> (waker: Option<W>)
        ensures
            *final(self) == old(self).spec_shutdown(),
            waker == (if old(self).state.complete {
                None
            } else {
                old(self).join_waker
            }),
    {
        if self.state.complete {
            None
        } else {
            self.state = self.state.to_cancelled();
            self.body = Body::Empty;
            self.join_waker.take()
        }
    }
}

} // verus!

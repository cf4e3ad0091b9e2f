//! The task queue: the task set together with the queue of runnable tasks.
//!
//! Running a task takes two calls. [`TaskQueue::begin_run`] enters the task
//! and says whether its computation is to be polled; the caller polls it and
//! hands the outcome to [`TaskQueue::finish_run`]. Wakes, aborts and spawns
//! that the computation makes while it is polled arrive between the two.

use vstd::prelude::*;
use std::collections::VecDeque;
use crate::task::cell::{JoinError, PollOutcome, RunEntry, TaskCell};
use crate::task::handle::{JoinHandle, Runnable, Running, TaskWaker};
use crate::task::set::{release_each, TaskSet, TaskSetView};

verus! {

/// What entering a run asks of the caller.
pub enum RunStep<W> {
    /// Poll the computation of the task once, then call
    /// [`TaskQueue::finish_run`] with the token and the outcome.
    Poll(Running),
    /// The task was cancelled: drop its computation without polling it. The
    /// wake handle is that of the join side, to be woken, if it was waiting.
    Cancelled(Option<W>),
    /// The task had finished before, or is gone: there is nothing to do.
    Stale,
}

/// What leaving a run did.
pub struct RunExit<W> {
    /// The task was woken while it ran: a runnable for it is in the ready
    /// queue again.
    pub rescheduled: bool,
    /// The task finished: its computation is to be dropped.
    pub finished: bool,
    /// The wake handle of the join side, to be woken, if the task finished
    /// while the join side was waiting.
    pub wake: Option<W>,
}

/// The result of polling a join handle.
pub enum JoinPoll<T> {
    /// The task has finished, with this result. The handle is used up.
    Ready(Result<T, JoinError>),
    /// The task has not finished. The handle comes back.
    Pending(JoinHandle),
}

/// The mathematical model of a task queue.
pub struct TaskQueueView<T, W> {
    /// The task set.
    pub set: TaskSetView<T, W>,
    /// The tasks that are ready to run, in the order in which they will.
    pub runqueue: Seq<u64>,
}

impl<T, W> TaskQueueView<T, W> {
    /// A task is spawned: it is bound to the set and, unless the set is
    /// closed, put at the end of the ready queue.
    pub open spec fn spawn(self) -> Self {
        if self.set.closed {
            TaskQueueView { set: self.set.bind(), ..self }
        } else {
            TaskQueueView {
                set: self.set.bind(),
                runqueue: self.runqueue.push(self.set.issued as u64),
            }
        }
    }

    /// A runnable of task `id` joins the end of the ready queue.
    pub open spec fn schedule(self, id: u64) -> Self {
        TaskQueueView { runqueue: self.runqueue.push(id), ..self }
    }

    /// The first runnable leaves the ready queue.
    pub open spec fn next(self) -> Self {
        if self.runqueue.len() > 0 {
            TaskQueueView { runqueue: self.runqueue.subrange(1, self.runqueue.len() as int), ..self }
        } else {
            self
        }
    }

    /// What entering a run of task `id` asks for.
    pub open spec fn run_entry(self, id: u64) -> RunEntry {
        if self.set.cells.contains_key(id) {
            self.set.cells[id].run_entry()
        } else {
            RunEntry::Stale
        }
    }

    /// A run of task `id` is entered. A cancelled task finishes here: it
    /// leaves the set, and the reference of the runnable is given up. So is
    /// the reference of a runnable that enters a finished task.
    pub open spec fn begin_run(self, id: u64) -> Self {
        if self.set.cells.contains_key(id) {
            let cell = self.set.cells[id];
            let set = self.set.put(id, cell.spec_begin_run());
            match cell.run_entry() {
                RunEntry::Poll => TaskQueueView { set, ..self },
                RunEntry::Cancel => TaskQueueView { set: set.remove(id).release(id), ..self },
                RunEntry::Stale => TaskQueueView { set: set.release(id), ..self },
            }
        } else {
            self
        }
    }

    /// The run of task `id` is left with `outcome`. A task that was woken
    /// while it ran goes back to the end of the ready queue; a task that
    /// finished leaves the set; in both of the other cases only the
    /// reference of the run is given up.
    pub open spec fn finish_run(self, id: u64, outcome: PollOutcome<T>) -> Self {
        if self.set.cells.contains_key(id) {
            let cell = self.set.cells[id];
            let set = self.set.put(id, cell.spec_finish_run(outcome));
            if cell.republishes(outcome) {
                TaskQueueView { set, runqueue: self.runqueue.push(id) }
            } else if cell.finishes(outcome) {
                TaskQueueView { set: set.remove(id).release(id), ..self }
            } else {
                TaskQueueView { set: set.release(id), ..self }
            }
        } else {
            self
        }
    }

    /// Whether leaving the run of task `id` with `outcome` puts the task
    /// back into the ready queue.
    pub open spec fn republishes(self, id: u64, outcome: PollOutcome<T>) -> bool {
        self.set.cells.contains_key(id) && self.set.cells[id].republishes(outcome)
    }

    /// Whether leaving the run of task `id` with `outcome` finishes the
    /// task.
    pub open spec fn finishes(self, id: u64, outcome: PollOutcome<T>) -> bool {
        self.set.cells.contains_key(id) && self.set.cells[id].finishes(outcome)
    }

    /// The wake handle of the join side of task `id`, if it is waiting.
    pub open spec fn join_waker(self, id: u64) -> Option<W> {
        if self.set.cells.contains_key(id) {
            self.set.cells[id].join_waker
        } else {
            None
        }
    }

    /// Task `id` is woken. A task that is neither finished, running nor
    /// scheduled gets a runnable at the end of the ready queue, with a
    /// reference of its own.
    pub open spec fn wake(self, id: u64) -> Self {
        if self.set.cells.contains_key(id) {
            let cell = self.set.cells[id];
            let set = self.set.put(id, cell.spec_wake());
            if cell.state.needs_runnable() {
                TaskQueueView { set: set.acquire(id), runqueue: self.runqueue.push(id) }
            } else {
                TaskQueueView { set, ..self }
            }
        } else {
            self
        }
    }

    /// Task `id` is aborted: it is cancelled, and scheduled as by a wake.
    pub open spec fn abort(self, id: u64) -> Self {
        if self.set.cells.contains_key(id) {
            let cell = self.set.cells[id];
            let set = self.set.put(id, cell.spec_abort());
            if cell.state.needs_runnable() {
                TaskQueueView { set: set.acquire(id), runqueue: self.runqueue.push(id) }
            } else {
                TaskQueueView { set, ..self }
            }
        } else {
            self
        }
    }

    /// What polling the join handle of task `id` returns: the result of a
    /// finished task, and nothing for a task that has not finished. A task
    /// whose cell is gone counts as cancelled.
    pub open spec fn join_result(self, id: u64) -> Option<Result<T, JoinError>> {
        if self.set.cells.contains_key(id) {
            if self.set.cells[id].state.complete {
                Some(self.set.cells[id].join_result())
            } else {
                None
            }
        } else {
            Some(Err(JoinError::Cancelled))
        }
    }

    /// The join handle of task `id` is polled with `waker`. Taking the
    /// result of a finished task uses the handle up, and its reference is
    /// given up.
    pub open spec fn poll_join(self, id: u64, waker: W) -> Self {
        if self.set.cells.contains_key(id) {
            let cell = self.set.cells[id];
            let set = self.set.put(id, cell.spec_poll_join(waker));
            if cell.state.complete {
                TaskQueueView { set: set.release(id), ..self }
            } else {
                TaskQueueView { set, ..self }
            }
        } else {
            self
        }
    }

    /// The join handle of task `id` is given up.
    pub open spec fn drop_join(self, id: u64) -> Self {
        if self.set.cells.contains_key(id) {
            let cell = self.set.cells[id];
            TaskQueueView { set: self.set.put(id, cell.spec_drop_join()).release(id), ..self }
        } else {
            self
        }
    }

    /// One more handle to task `id` is made.
    pub open spec fn acquire(self, id: u64) -> Self {
        TaskQueueView { set: self.set.acquire(id), ..self }
    }

    /// A handle to task `id` is given up.
    pub open spec fn release(self, id: u64) -> Self {
        TaskQueueView { set: self.set.release(id), ..self }
    }

    /// The queue is shut down: the set is shut down, and the runnables of
    /// the ready queue are given up.
    pub open spec fn shutdown(self) -> Self {
        let set = self.set.shutdown();
        TaskQueueView {
            set: TaskSetView { cells: release_each(set.cells, self.runqueue), ..set },
            runqueue: Seq::empty(),
        }
    }
}

/// A queue of tasks: it spawns them, hands out the ones that are ready to
/// run, and keeps their state.
pub struct TaskQueue<T, W> {
    runqueue: VecDeque<u64>,
    set: TaskSet<T, W>,
}

impl<T, W> View for TaskQueue<T, W> {
    type V = TaskQueueView<T, W>;

    closed spec fn view(&self) -> TaskQueueView<T, W> {
        TaskQueueView { set: self.set@, runqueue: self.runqueue@ }
    }
}

impl<T, W> TaskQueue<T, W> {
    /// A task queue without tasks.
    pub fn new() -> (q: Self)
        ensures
            q@.set.cells == Map::<u64, TaskCell<T, W>>::empty(),
            q@.set.list == Seq::<u64>::empty(),
            !q@.set.closed,
            q@.set.issued == 0,
            q@.runqueue == Seq::<u64>::empty(),
    {
        TaskQueue { runqueue: VecDeque::with_capacity(1024), set: TaskSet::new() }
    }

    /// Whether the queue was shut down.
    pub fn is_closed(&self) -> (r: bool)
        ensures
            r == self@.set.closed,
    {
        self.set.is_closed()
    }

    /// The number of tasks spawned so far.
    pub fn spawned(&self) -> (n: u64)
        ensures
            n == self@.set.issued,
    {
        self.set.issued()
    }

    /// The number of tasks that are registered with the task set.
    pub fn tasks(&self) -> (n: usize)
        ensures
            n == self@.set.list.len(),
    {
        self.set.len()
    }

    /// The cell of task `id`, if it is alive.
    pub fn cell(&self, id: u64) -> (c: Option<&TaskCell<T, W>>)
        ensures
            match c {
                Some(cell) => self@.set.cells.contains_key(id) && *cell == self@.set.cells[id],
                None => !self@.set.cells.contains_key(id),
            },
    {
        self.set.cell(id)
    }

    /// Spawns a task onto the queue. The task is queued for execution at
    /// once. Returns the join handle, which observes the result of the task.
    ///
    /// On a queue that was shut down the computation is to be dropped at
    /// once, and the join handle reports the task as cancelled.
    pub fn spawn(&mut self) -> (handle: JoinHandle)
        requires
            old(self)@.set.issued < u64::MAX,
        ensures
            final(self)@ == old(self)@.spawn(),
            handle.id() == old(self)@.set.issued,
    {
        let (runnable, handle) = self.set.bind();
        match runnable {
            Some(runnable) => {
                self.schedule(runnable);
            },
            None => {},
        }
        handle
    }

    /// Puts a runnable at the end of the ready queue.
    pub fn schedule(&mut self, runnable: Runnable)
        ensures
            final(self)@ == old(self)@.schedule(runnable.id()),
    {
        self.runqueue.push_back(runnable.id());
    }

    /// Returns the next runnable to be executed.
    pub fn next(&mut self) -> (r: Option<Runnable>)
        ensures
            final(self)@ == old(self)@.next(),
            match r {
                Some(runnable) => old(self)@.runqueue.len() > 0 && runnable.id()
                    == old(self)@.runqueue[0],
                None => old(self)@.runqueue.len() == 0,
            },
    {
        match self.runqueue.pop_front() {
            Some(id) => Some(Runnable::new(id)),
            None => None,
        }
    }

    /// Returns the number of runnables in the queue.
    pub fn runnable(&self) -> (n: usize)
        ensures
            n == self@.runqueue.len(),
    {
        self.runqueue.len()
    }

    /// Enters a run of the task of `runnable`.
    pub fn begin_run(&mut self, runnable: Runnable) -> (r: RunStep<W>)
        ensures
            final(self)@ == old(self)@.begin_run(runnable.id()),
            match r {
                RunStep::Poll(running) => old(self)@.run_entry(runnable.id()) == RunEntry::Poll
                    && running.id() == runnable.id(),
                RunStep::Cancelled(wake) => old(self)@.run_entry(runnable.id()) == RunEntry::Cancel
                    && wake == old(self)@.join_waker(runnable.id()),
                RunStep::Stale => old(self)@.run_entry(runnable.id()) == RunEntry::Stale,
            },
    {
        let ghost before = self@;
        let id: u64 = runnable.id();
        match self.set.take(id) {
            None => {
                proof {
                    assert(self.set@.cells =~= before.set.cells);
                }
                RunStep::Stale
            },
            Some(mut cell) => {
                let (entry, waker) = cell.begin_run();
                self.set.put(id, cell);
                proof {
                    assert(self.set@.cells =~= before.set.put(id, cell).cells);
                }
                match entry {
                    RunEntry::Poll => RunStep::Poll(Running::new(id)),
                    RunEntry::Cancel => {
                        let _ = self.set.remove(id);
                        let _ = self.set.release(id);
                        RunStep::Cancelled(waker)
                    },
                    RunEntry::Stale => {
                        let _ = self.set.release(id);
                        RunStep::Stale
                    },
                }
            },
        }
    }

    /// Leaves the run of the task of `running`, whose computation gave
    /// `outcome` when it was polled.
    ///
    /// A computation that stayed pending keeps the task alive: the task goes
    /// back to the ready queue if it was woken while it ran. An output or a
    /// panic finishes the task: the result is kept for the join handle, if
    /// there is one, the join side is to be woken, and the computation is to
    /// be dropped.
    pub fn finish_run(&mut self, running: Running, outcome: PollOutcome<T>) -> (r: RunExit<W>)
        ensures
            final(self)@ == old(self)@.finish_run(running.id(), outcome),
            r.rescheduled == old(self)@.republishes(running.id(), outcome),
            r.finished == old(self)@.finishes(running.id(), outcome),
            r.wake == (if r.finished {
                old(self)@.join_waker(running.id())
            } else {
                None
            }),
    {
        let ghost before = self@;
        let id: u64 = running.id();
        match self.set.take(id) {
            None => {
                proof {
                    assert(self.set@.cells =~= before.set.cells);
                }
                RunExit { rescheduled: false, finished: false, wake: None }
            },
            Some(mut cell) => {
                let (rescheduled, finished, wake) = cell.finish_run(outcome);
                self.set.put(id, cell);
                proof {
                    assert(self.set@.cells =~= before.set.put(id, cell).cells);
                }
                if rescheduled {
                    self.runqueue.push_back(id);
                } else if finished {
                    let _ = self.set.remove(id);
                    let _ = self.set.release(id);
                } else {
                    let _ = self.set.release(id);
                }
                RunExit { rescheduled, finished, wake }
            },
        }
    }

    /// Makes a wake handle for the task that is running.
    pub fn waker(&mut self, running: &Running) -> (w: TaskWaker)
        ensures
            final(self)@ == old(self)@.acquire(running.id()),
            w.id() == running.id(),
    {
        self.set.acquire(running.id());
        TaskWaker::new(running.id())
    }

    /// Makes a second wake handle for the task of `waker`.
    pub fn clone_waker(&mut self, waker: &TaskWaker) -> (w: TaskWaker)
        ensures
            final(self)@ == old(self)@.acquire(waker.id()),
            w.id() == waker.id(),
    {
        self.set.acquire(waker.id());
        TaskWaker::new(waker.id())
    }

    /// Gives a wake handle up.
    pub fn drop_waker(&mut self, waker: TaskWaker)
        ensures
            final(self)@ == old(self)@.release(waker.id()),
    {
        let _ = self.set.release(waker.id());
    }

    /// Gives a runnable up without running it.
    pub fn drop_runnable(&mut self, runnable: Runnable)
        ensures
            final(self)@ == old(self)@.release(runnable.id()),
    {
        let _ = self.set.release(runnable.id());
    }

    fn wake_task(&mut self, id: u64)
        ensures
            final(self)@ == old(self)@.wake(id),
    {
        let ghost before = self@;
        match self.set.take(id) {
            None => {
                proof {
                    assert(self.set@.cells =~= before.set.cells);
                }
            },
            Some(mut cell) => {
                let publish = cell.wake();
                self.set.put(id, cell);
                proof {
                    assert(self.set@.cells =~= before.set.put(id, cell).cells);
                }
                if publish {
                    self.set.acquire(id);
                    self.runqueue.push_back(id);
                }
            },
        }
    }

    /// Wakes the task of `waker`, and keeps the handle.
    pub fn wake_by_ref(&mut self, waker: &TaskWaker)
        ensures
            final(self)@ == old(self)@.wake(waker.id()),
    {
        self.wake_task(waker.id());
    }

    /// Wakes the task of `waker`, and gives the handle up.
    pub fn wake(&mut self, waker: TaskWaker)
        ensures
            final(self)@ == old(self)@.wake(waker.id()).release(waker.id()),
    {
        self.wake_task(waker.id());
        let _ = self.set.release(waker.id());
    }

    /// Aborts the task of `handle`. The task is cancelled and, unless it has
    /// finished, scheduled: its next run drops the computation without
    /// polling it again.
    pub fn abort(&mut self, handle: &JoinHandle)
        ensures
            final(self)@ == old(self)@.abort(handle.id()),
    {
        let ghost before = self@;
        let id: u64 = handle.id();
        match self.set.take(id) {
            None => {
                proof {
                    assert(self.set@.cells =~= before.set.cells);
                }
            },
            Some(mut cell) => {
                let publish = cell.abort();
                self.set.put(id, cell);
                proof {
                    assert(self.set@.cells =~= before.set.put(id, cell).cells);
                }
                if publish {
                    self.set.acquire(id);
                    self.runqueue.push_back(id);
                }
            },
        }
    }

    /// Polls a join handle. If the task has finished, its result is taken
    /// out of the cell and returned; otherwise the wake handle is left in
    /// the cell, to be woken when the task finishes, and the join handle
    /// comes back.
    pub fn poll_join(&mut self, handle: JoinHandle, waker: W) -> (r: JoinPoll<T>)
        ensures
            final(self)@ == old(self)@.poll_join(handle.id(), waker),
            match r {
                JoinPoll::Ready(result) => old(self)@.join_result(handle.id()) == Some(result),
                JoinPoll::Pending(h) => old(self)@.join_result(handle.id()) is None && h.id()
                    == handle.id(),
            },
    {
        let ghost before = self@;
        let id: u64 = handle.id();
        match self.set.take(id) {
            None => {
                proof {
                    assert(self.set@.cells =~= before.set.cells);
                }
                JoinPoll::Ready(Err(JoinError::Cancelled))
            },
            Some(mut cell) => {
                let result = cell.poll_join(waker);
                self.set.put(id, cell);
                proof {
                    assert(self.set@.cells =~= before.set.put(id, cell).cells);
                }
                match result {
                    Some(result) => {
                        let _ = self.set.release(id);
                        JoinPoll::Ready(result)
                    },
                    None => JoinPoll::Pending(handle),
                }
            },
        }
    }

    /// Gives a join handle up. The task runs on, but nobody will observe its
    /// result: a result that is there is dropped, and one that comes later
    /// is dropped when it comes.
    pub fn detach(&mut self, handle: JoinHandle)
        ensures
            final(self)@ == old(self)@.drop_join(handle.id()),
    {
        let ghost before = self@;
        let id: u64 = handle.id();
        match self.set.take(id) {
            None => {
                proof {
                    assert(self.set@.cells =~= before.set.cells);
                }
            },
            Some(mut cell) => {
                cell.drop_join();
                self.set.put(id, cell);
                proof {
                    assert(self.set@.cells =~= before.set.put(id, cell).cells);
                }
                let _ = self.set.release(id);
            },
        }
    }

    /// Shuts the queue down: cancels all tasks, whose computations are to be
    /// dropped, and empties the ready queue. Returns the wake handles of the
    /// join sides that were waiting.
    pub fn shutdown(&mut self) -> (woken: Vec<W>)
        ensures
            final(self)@ == old(self)@.shutdown(),
            woken@ == crate::task::set::shutdown_wakers(old(self)@.set.cells, old(self)@.set.list),
    {
        let ghost before = self@;
        let woken = self.set.shutdown();
        let ghost shut = self.set@;
        let ghost queue = self.runqueue@;
        let ghost mut n: int = 0;
        while self.runqueue.len() > 0
            invariant
                0 <= n,
                n + self.runqueue.len() == queue.len(),
                self.runqueue@ == queue.skip(n),
                self.set@ == (TaskSetView {
                    cells: release_each(shut.cells, queue.take(n)),
                    ..shut
                }),
            decreases self.runqueue.len(),
        {
            let ghost rest = self.runqueue@;
            let id: u64 = self.runqueue.pop_front().unwrap();
            proof {
                assert(id == queue[n]);
                assert(queue.take(n + 1).drop_last() =~= queue.take(n));
                assert(queue.take(n + 1).last() == id);
                assert(self.runqueue@ =~= queue.skip(n + 1));
            }
            let _ = self.set.release(id);
            proof {
                n = n + 1;
            }
        }
        proof {
            assert(queue.take(n) =~= queue);
            assert(self.runqueue@ =~= Seq::<u64>::empty());
        }
        woken
    }
}

} // verus!

//! The executor of one thread.

use vstd::prelude::*;
use crate::error::Errno;
use crate::executor::harness::FutureHarness;
use crate::executor::park::{Park, ParkMode};
use crate::task::handle::{JoinHandle, Runnable};
use crate::task::queue::{TaskQueue, TaskQueueView};

verus! {

/// What the executor does next.
#[derive(Debug, PartialEq, Eq, Clone, Copy, Structural)]
pub enum Plan {
    /// Poll the root computation.
    PollRoot,
    /// Run the first task of the ready queue.
    Run,
    /// Park in this mode.
    Park(ParkMode),
}

/// What a turn of the executor did, or asks of the caller.
pub enum Turn {
    /// The root was notified: poll it now. If it is ready, the loop ends.
    PollRoot,
    /// The next task of the ready queue: run it now.
    Run(Runnable),
    /// The executor parked in this mode, with this result. An error ends the
    /// loop.
    Parked(ParkMode, Result<(), Errno>),
}

/// The mathematical model of a [`Turn`].
pub enum TurnView {
    /// The root is to be polled.
    PollRoot,
    /// The task with this number is to be run.
    Run(u64),
    /// The executor parked in this mode, with this result.
    Parked(ParkMode, Result<(), Errno>),
}

impl View for Turn {
    type V = TurnView;

    open spec fn view(&self) -> TurnView {
        match *self {
            Turn::PollRoot => TurnView::PollRoot,
            Turn::Run(runnable) => TurnView::Run(runnable.id()),
            Turn::Parked(mode, r) => TurnView::Parked(mode, r),
        }
    }
}

/// The mathematical model of an executor.
pub struct ExecutorView<P, T, W> {
    /// The park source.
    pub park: P,
    /// The task queue.
    pub queue: TaskQueueView<T, W>,
    /// Whether the root was woken since it was last polled.
    pub root_notified: bool,
    /// Whether a root computation is being driven.
    pub entered: bool,
    /// Whether the loop stands at the draining of the ready queue, after
    /// its look at the root.
    pub draining: bool,
    /// Whether a task was run since the draining began.
    pub ran: bool,
}

impl<P, T, W> ExecutorView<P, T, W> {
    /// The park mode of the next park: without blocking if the root was
    /// woken, and until the next completion otherwise.
    pub open spec fn park_mode(self) -> ParkMode {
        if self.root_notified {
            ParkMode::NoPark
        } else {
            ParkMode::NextCompletion
        }
    }

    /// What the executor does next, where `needs_park` is what the park
    /// source answers if it is asked.
    ///
    /// Each round of the loop looks at the root first, and polls it if it
    /// was notified. It then runs the tasks of the ready queue in their
    /// order, asking the park source after each whether it needs a park, and
    /// parks when the answer is yes or the queue is empty.
    pub open spec fn plan(self, needs_park: bool) -> Plan {
        if !self.draining && self.root_notified {
            Plan::PollRoot
        } else if self.draining && self.ran && needs_park {
            Plan::Park(self.park_mode())
        } else if self.queue.runqueue.len() > 0 {
            Plan::Run
        } else {
            Plan::Park(self.park_mode())
        }
    }

    /// Whether a turn that leaves the executor as `after`, with the result
    /// `turn`, follows the plan for the answer `needs_park`.
    ///
    /// A poll of the root uses its notification up and begins the draining.
    /// A run takes the first task out of the ready queue. A park ends the
    /// round: the next turn looks at the root again. Only a park touches the
    /// park source.
    pub open spec fn follows(self, after: Self, turn: TurnView, needs_park: bool) -> bool {
        match self.plan(needs_park) {
            Plan::PollRoot => {
                &&& turn is PollRoot
                &&& after == (ExecutorView { root_notified: false, draining: true, ran: false, ..self })
            },
            Plan::Run => {
                &&& turn == TurnView::Run(self.queue.runqueue[0])
                &&& after == (ExecutorView {
                    queue: self.queue.next(),
                    draining: true,
                    ran: true,
                    ..self
                })
            },
            Plan::Park(mode) => {
                &&& turn matches TurnView::Parked(m, _)
                &&& m == mode
                &&& after == (ExecutorView {
                    draining: false,
                    ran: false,
                    park: after.park,
                    ..self
                })
            },
        }
    }
}

/// An executor that drives one root computation at a time, together with
/// the tasks spawned on it, on the thread that calls it.
pub struct LocalExecutor<P: Park, T, W> {
    taskqueue: TaskQueue<T, W>,
    park: P,
    root: FutureHarness,
    entered: bool,
    draining: bool,
    ran: bool,
}

impl<P: Park, T, W> View for LocalExecutor<P, T, W> {
    type V = ExecutorView<P, T, W>;

    closed spec fn view(&self) -> ExecutorView<P, T, W> {
        ExecutorView {
            park: self.park,
            queue: self.taskqueue@,
            root_notified: self.root.is_notified(),
            entered: self.entered,
            draining: self.draining,
            ran: self.ran,
        }
    }
}

impl<P: Park, T, W> LocalExecutor<P, T, W> {
    /// An executor on the given park source, without tasks.
    pub fn new(park: P) -> (e: Self)
        ensures
            e@.park == park,
            e@.queue.runqueue == Seq::<u64>::empty(),
            e@.queue.set.cells == Map::<u64, crate::task::cell::TaskCell<T, W>>::empty(),
            e@.queue.set.list == Seq::<u64>::empty(),
            e@.queue.set.issued == 0,
            !e@.queue.set.closed,
            e@.root_notified,
            !e@.entered,
            !e@.draining,
            !e@.ran,
    {
        LocalExecutor {
            taskqueue: TaskQueue::new(),
            park,
            root: FutureHarness::new(),
            entered: false,
            draining: false,
            ran: false,
        }
    }

    /// Whether a root computation is being driven.
    pub fn is_entered(&self) -> (r: bool)
        ensures
            r == self@.entered,
    {
        self.entered
    }

    /// The task queue of the executor.
    pub fn taskqueue(&mut self) -> (q: &mut TaskQueue<T, W>)
        ensures
            q@ == old(self)@.queue,
            final(self)@ == (ExecutorView { queue: final(q)@, ..old(self)@ }),
    {
        &mut self.taskqueue
    }

    /// Spawns a task on the executor. This works whether or not a root
    /// computation is being driven.
    pub fn spawn(&mut self) -> (handle: JoinHandle)
        requires
            old(self)@.queue.set.issued < u64::MAX,
        ensures
            final(self)@ == (ExecutorView { queue: old(self)@.queue.spawn(), ..old(self)@ }),
            handle.id() == old(self)@.queue.set.issued,
    {
        self.taskqueue.spawn()
    }

    /// Starts to drive a root computation: enters the park source, and
    /// notes the root as notified, so that the first turn polls it. The
    /// caller then takes [`Self::turn`]s until the root is ready, and calls
    /// [`Self::leave`].
    ///
    /// Only one root computation is driven at a time. The guard is what
    /// entering the park source returned.
    pub fn block_on(&mut self) -> (guard: P::Guard)
        requires
            !old(self)@.entered,
        ensures
            final(self)@ == (ExecutorView {
                root_notified: true,
                entered: true,
                draining: false,
                ran: false,
                ..old(self)@
            }),
            call_ensures(P::enter, (&old(self)@.park,), guard),
    {
        let guard = self.park.enter();
        self.root = FutureHarness::new();
        self.entered = true;
        self.draining = false;
        self.ran = false;
        guard
    }

    /// Ends the driving of a root computation.
    pub fn leave(&mut self, guard: P::Guard)
        requires
            old(self)@.entered,
        ensures
            final(self)@ == (ExecutorView { entered: false, ..old(self)@ }),
    {
        self.entered = false;
    }

    /// The root computation is woken.
    pub fn wake_root(&mut self)
        ensures
            final(self)@ == (ExecutorView { root_notified: true, ..old(self)@ }),
    {
        self.root.wake();
    }

    /// Takes the next turn of the loop.
    ///
    /// The turn either asks the caller to poll the root, or hands out the
    /// next task to run, or parks. Which of these it does is
    /// [`ExecutorView::plan`], for the answer that the park source gives
    /// when it is asked whether it needs a park. It is asked after a task
    /// was run, and not otherwise. A park is one call of the park source in
    /// the mode of the plan: the turn hands out the result of that call as
    /// it is, be it an error, and leaves the park source as the call left
    /// it.
    pub fn turn(&mut self) -> (t: Turn)
        ensures
            old(self)@.draining && old(self)@.ran ==> exists|needs_park: bool| #[trigger]
                call_ensures(P::needs_park, (&old(self)@.park,), needs_park) && old(self)@.follows(final(self)@, t@, needs_park),
            !(old(self)@.draining && old(self)@.ran) ==> old(self)@.follows(
                final(self)@,
                t@,
                false,
            ),
            t matches Turn::Parked(mode, result) ==> exists|p: &mut P|
                *p == old(self)@.park && *final(p) == final(self)@.park && #[trigger] call_ensures(
                    P::park,
                    (p, mode),
                    result,
                ),
    {
        if !self.draining {
            self.draining = true;
            self.ran = false;
            if self.root.try_poll() {
                return Turn::PollRoot;
            }
        }
        let ghost before = old(self)@;
        let ghost asked = before.draining && before.ran;
        let needs_park = if self.ran {
            self.park.needs_park()
        } else {
            false
        };
        proof {
            assert(asked == self.ran);
            assert(asked ==> call_ensures(P::needs_park, (&before.park,), needs_park));
        }
        if !needs_park {
            match self.taskqueue.next() {
                Some(runnable) => {
                    self.ran = true;
                    proof {
                        assert(before.follows(self@, (Turn::Run(runnable))@, needs_park));
                    }
                    return Turn::Run(runnable);
                },
                None => {},
            }
        }
        let mode = if self.root.is_notified() {
            ParkMode::NoPark
        } else {
            ParkMode::NextCompletion
        };
        let result = self.park.park(mode);
        self.draining = false;
        self.ran = false;
        Turn::Parked(mode, result)
    }

    /// Shuts the executor down: cancels all tasks, whose computations are to
    /// be dropped, and then shuts the park source down, with one call.
    /// Returns the wake handles of the join sides that were waiting.
    pub fn shutdown(&mut self) -> (woken: Vec<W>)
        ensures
            final(self)@ == (ExecutorView {
                queue: old(self)@.queue.shutdown(),
                park: final(self)@.park,
                ..old(self)@
            }),
            exists|p: &mut P|
                *p == old(self)@.park && *final(p) == final(self)@.park && #[trigger] call_ensures(
                    P::shutdown,
                    (p,),
                    (),
                ),
            woken@ == crate::task::set::shutdown_wakers(
                old(self)@.queue.set.cells,
                old(self)@.queue.set.list,
            ),
    {
        let woken = self.taskqueue.shutdown();
        self.park.shutdown();
        woken
    }
}

/// Spawns a task on the executor that is driving a root computation.
///
/// This is for computations that run inside [`LocalExecutor::block_on`];
/// outside of it there is no current executor.
pub fn spawn<P: Park, T, W>(executor: &mut LocalExecutor<P, T, W>) -> (handle: JoinHandle)
    requires
        old(executor)@.entered,
        old(executor)@.queue.set.issued < u64::MAX,
    ensures
        final(executor)@ == (ExecutorView {
            queue: old(executor)@.queue.spawn(),
            ..old(executor)@
        }),
        handle.id() == old(executor)@.queue.set.issued,
{
    executor.spawn()
}

} // verus!

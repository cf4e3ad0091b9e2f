use std::cell::Cell;
use std::collections::HashSet;
use std::rc::Rc;

use norn::task::cell::{Body, JoinError, PollOutcome};
use norn::task::handle::{JoinHandle, Runnable, TaskWaker};
use norn::task::queue::{JoinPoll, RunStep, TaskQueue};
use norn::task::set::TaskSet;

/// The output of a test computation. It notes when it is dropped.
struct TestFutureOutput {
    dropped: Rc<Cell<bool>>,
}

impl Drop for TestFutureOutput {
    fn drop(&mut self) {
        self.dropped.set(true);
    }
}

/// What the computation of a test task does when it is polled.
#[derive(Clone, Copy, PartialEq)]
enum Script {
    /// Follows the flags of the test state.
    Standard,
    /// Aborts itself and is ready.
    SelfAbort,
    /// Aborts itself, wakes itself and stays pending once.
    SelfAbortAndYield,
    /// Wakes itself and stays pending once.
    YieldOnce,
    /// Yields once, and panics when it is polled again.
    YieldAndPanic,
}

struct TestState {
    panic_on_run: bool,
    num_polls: usize,
    task_dropped: bool,
    output_dropped: Rc<Cell<bool>>,
    return_pending: bool,
    store_waker: bool,
    stashed_waker: Option<TaskWaker>,
}

struct TestSpawner {
    queue: TaskQueue<TestFutureOutput, u32>,
    state: TestState,
    script: Script,
    yielded: bool,
    own_handle: Option<JoinHandle>,
    alive: HashSet<u64>,
}

impl TestSpawner {
    fn new() -> Self {
        TestSpawner {
            queue: TaskQueue::new(),
            state: TestState {
                panic_on_run: false,
                num_polls: 0,
                task_dropped: false,
                output_dropped: Rc::new(Cell::new(false)),
                return_pending: false,
                store_waker: false,
                stashed_waker: None,
            },
            script: Script::Standard,
            yielded: false,
            own_handle: None,
            alive: HashSet::new(),
        }
    }

    fn drop_future(&mut self, id: u64) {
        if self.alive.remove(&id) {
            self.state.task_dropped = true;
        }
    }

    fn spawn(&mut self) -> JoinHandle {
        assert!(self.queue.spawned() < u64::MAX);
        let handle = self.queue.spawn();
        // The computation is kept if the cell says that the task holds it.
        let kept = match self.queue.cell(handle.id()) {
            Some(cell) => matches!(cell.body, Body::Future),
            None => false,
        };
        if kept {
            self.alive.insert(handle.id());
        } else {
            self.state.task_dropped = true;
        }
        handle
    }

    fn next(&mut self) -> Option<Runnable> {
        self.queue.next()
    }

    fn poll(&mut self, running: &norn::task::handle::Running) -> PollOutcome<TestFutureOutput> {
        match self.script {
            Script::Standard => {
                self.state.num_polls += 1;
                if self.state.store_waker {
                    self.state.stashed_waker = Some(self.queue.waker(running));
                }
                if self.state.panic_on_run {
                    PollOutcome::Panicked
                } else if self.state.return_pending {
                    PollOutcome::Pending
                } else {
                    PollOutcome::Ready(TestFutureOutput { dropped: self.state.output_dropped.clone() })
                }
            }
            Script::SelfAbort => {
                let handle = self.own_handle.take().unwrap();
                self.queue.abort(&handle);
                self.queue.detach(handle);
                PollOutcome::Ready(TestFutureOutput { dropped: self.state.output_dropped.clone() })
            }
            Script::SelfAbortAndYield => {
                if let Some(handle) = self.own_handle.take() {
                    self.queue.abort(&handle);
                    self.queue.detach(handle);
                }
                if self.yielded {
                    PollOutcome::Ready(TestFutureOutput { dropped: self.state.output_dropped.clone() })
                } else {
                    self.yielded = true;
                    let waker = self.queue.waker(running);
                    self.queue.wake_by_ref(&waker);
                    self.queue.drop_waker(waker);
                    PollOutcome::Pending
                }
            }
            Script::YieldAndPanic => {
                self.state.num_polls += 1;
                if self.yielded {
                    PollOutcome::Panicked
                } else {
                    self.yielded = true;
                    let waker = self.queue.waker(running);
                    self.queue.wake_by_ref(&waker);
                    self.queue.drop_waker(waker);
                    PollOutcome::Pending
                }
            }
            Script::YieldOnce => {
                self.state.num_polls += 1;
                if self.yielded {
                    PollOutcome::Ready(TestFutureOutput { dropped: self.state.output_dropped.clone() })
                } else {
                    self.yielded = true;
                    let waker = self.queue.waker(running);
                    self.queue.wake_by_ref(&waker);
                    self.queue.drop_waker(waker);
                    PollOutcome::Pending
                }
            }
        }
    }

    fn run(&mut self, runnable: Runnable) {
        let id = runnable.id();
        match self.queue.begin_run(runnable) {
            RunStep::Poll(running) => {
                let outcome = self.poll(&running);
                let exit = self.queue.finish_run(running, outcome);
                if exit.finished {
                    self.drop_future(id);
                }
            }
            RunStep::Cancelled(_) => self.drop_future(id),
            RunStep::Stale => {}
        }
    }

    /// Shuts the queue down, and drops the computations that the queue
    /// has given up: those of the tasks whose cells hold none any more.
    fn shutdown(&mut self) {
        let _ = self.queue.shutdown();
        let ids: Vec<u64> = self.alive.iter().copied().collect();
        for id in ids {
            let given_up = match self.queue.cell(id) {
                Some(cell) => !matches!(cell.body, Body::Future),
                None => true,
            };
            if given_up {
                self.drop_future(id);
            }
        }
    }

    /// Polls the join handle once, as `now_or_never` does.
    fn now_or_never(&mut self, handle: JoinHandle) -> Option<Result<TestFutureOutput, JoinError>> {
        match self.queue.poll_join(handle, 0) {
            JoinPoll::Ready(r) => Some(r),
            JoinPoll::Pending(h) => {
                self.queue.detach(h);
                None
            }
        }
    }
}

#[test]
fn drop_and_abort() {
    let mut spawner = TestSpawner::new();
    let handle = spawner.spawn();

    assert!(!spawner.state.task_dropped);
    assert!(matches!(spawner.queue.cell(handle.id()).unwrap().body, Body::Future));
    spawner.shutdown();
    assert!(spawner.state.task_dropped);
    assert!(matches!(spawner.queue.cell(handle.id()).unwrap().body, Body::Empty));
    assert!(spawner.queue.cell(handle.id()).unwrap().state.complete);
    spawner.queue.abort(&handle);
    assert_eq!(spawner.queue.runnable(), 0);
}

#[test]
fn abort_and_drop() {
    let mut spawner = TestSpawner::new();
    let handle = spawner.spawn();

    spawner.queue.abort(&handle);
    assert!(!spawner.state.task_dropped);
    assert!(matches!(spawner.queue.cell(handle.id()).unwrap().body, Body::Future));
    assert!(spawner.queue.cell(handle.id()).unwrap().state.cancelled);
    spawner.shutdown();
    assert!(spawner.state.task_dropped);
    assert!(matches!(spawner.queue.cell(handle.id()).unwrap().body, Body::Empty));
}

#[test]
fn abort_twice() {
    let mut spawner = TestSpawner::new();
    let handle = spawner.spawn();

    spawner.queue.abort(&handle);
    spawner.queue.abort(&handle);
    assert!(!spawner.state.task_dropped);
    // The second abort has not queued the task a second time.
    assert_eq!(spawner.queue.runnable(), 1);
    assert!(matches!(spawner.queue.cell(handle.id()).unwrap().body, Body::Future));
    spawner.shutdown();
    assert!(spawner.state.task_dropped);
    assert!(matches!(spawner.queue.cell(handle.id()).unwrap().body, Body::Empty));
    assert_eq!(spawner.queue.runnable(), 0);
}

#[test]
fn drop_handle_and_run() {
    let mut spawner = TestSpawner::new();
    let handle = spawner.spawn();
    spawner.queue.detach(handle);
    let next = spawner.next().unwrap();
    spawner.run(next);
    assert!(spawner.state.task_dropped);
    assert_eq!(spawner.state.num_polls, 1);
    assert!(spawner.state.output_dropped.get());
}

#[test]
fn run_and_drop_handle() {
    let mut spawner = TestSpawner::new();
    let handle = spawner.spawn();
    let next = spawner.next().unwrap();
    spawner.run(next);
    spawner.queue.detach(handle);
    assert!(spawner.state.task_dropped);
    assert_eq!(spawner.state.num_polls, 1);
    assert!(spawner.state.output_dropped.get());
}

#[test]
fn abort_and_run() {
    let mut spawner = TestSpawner::new();
    let handle = spawner.spawn();
    spawner.queue.abort(&handle);
    let next = spawner.next().unwrap();
    spawner.run(next);
    assert!(spawner.state.task_dropped);
    assert_eq!(spawner.state.num_polls, 0);
    assert!(!spawner.state.output_dropped.get());
    assert!(spawner.now_or_never(handle).unwrap().is_err());
}

#[test]
fn run_and_abort() {
    let mut spawner = TestSpawner::new();
    let handle = spawner.spawn();
    let next = spawner.next().unwrap();
    spawner.run(next);
    spawner.queue.abort(&handle);
    assert!(spawner.state.task_dropped);
    assert_eq!(spawner.state.num_polls, 1);
    assert!(!spawner.state.output_dropped.get());
    assert!(spawner.now_or_never(handle).unwrap().is_ok());
    assert!(spawner.state.output_dropped.get());
}

#[test]
fn run_and_self_abort() {
    let mut spawner = TestSpawner::new();
    spawner.script = Script::SelfAbort;
    let handle = spawner.spawn();

    // Put the join handle of the task where the task finds it, to abort itself.
    spawner.own_handle = Some(handle);
    let next = spawner.next().unwrap();
    spawner.run(next);
}

#[test]
fn run_and_self_abort_and_yield() {
    let mut spawner = TestSpawner::new();
    spawner.script = Script::SelfAbortAndYield;
    let handle = spawner.spawn();

    // This hits the case where a task is aborted while it is running, by
    // itself, and does not finish at once.
    spawner.own_handle = Some(handle);
    let next = spawner.next().unwrap();
    spawner.run(next);
}

#[test]
fn panic_during_poll() {
    let mut spawner = TestSpawner::new();
    spawner.state.panic_on_run = true;

    let handle = spawner.spawn();
    let next = spawner.next().unwrap();
    spawner.run(next);

    assert_eq!(spawner.state.num_polls, 1);
    assert!(spawner.state.task_dropped);
    assert!(!spawner.state.output_dropped.get());
    assert!(spawner.now_or_never(handle).unwrap().is_err());
}

#[test]
fn panic_during_poll_abort() {
    let mut spawner = TestSpawner::new();
    spawner.state.panic_on_run = true;

    let handle = spawner.spawn();
    let next = spawner.next().unwrap();
    spawner.run(next);
    spawner.queue.abort(&handle);
    assert_eq!(spawner.state.num_polls, 1);
    assert!(spawner.state.task_dropped);
    assert!(!spawner.state.output_dropped.get());
    assert!(spawner.now_or_never(handle).unwrap().is_err());
}

#[test]
fn drop_handle_wake_task() {
    let mut spawner = TestSpawner::new();
    spawner.state.return_pending = true;
    spawner.state.store_waker = true;

    let handle = spawner.spawn();
    spawner.queue.detach(handle);
    let next = spawner.next().unwrap();
    spawner.run(next);
    assert!(spawner.next().is_none());
    assert!(!spawner.state.task_dropped);
    assert!(!spawner.state.output_dropped.get());
    assert_eq!(spawner.state.num_polls, 1);

    spawner.state.return_pending = false;
    spawner.state.store_waker = false;
    let waker = spawner.state.stashed_waker.take().unwrap();
    spawner.queue.wake(waker);

    let next = spawner.next().unwrap();
    spawner.run(next);

    assert!(spawner.state.task_dropped);
    assert!(spawner.state.output_dropped.get());
    assert_eq!(spawner.state.num_polls, 2);
}

#[test]
fn wake_task_drop_handle() {
    let mut spawner = TestSpawner::new();
    spawner.state.return_pending = true;
    spawner.state.store_waker = true;

    let handle = spawner.spawn();
    let next = spawner.next().unwrap();
    spawner.run(next);
    assert!(spawner.next().is_none());
    assert!(!spawner.state.task_dropped);
    assert!(!spawner.state.output_dropped.get());
    spawner.state.return_pending = false;
    spawner.state.store_waker = false;
    let waker = spawner.state.stashed_waker.take().unwrap();
    spawner.queue.wake(waker);

    let next = spawner.next().unwrap();
    spawner.run(next);

    assert!(spawner.state.task_dropped);
    assert!(!spawner.state.output_dropped.get());
    assert_eq!(spawner.state.num_polls, 2);
    assert!(spawner.now_or_never(handle).unwrap().is_ok());
    assert!(spawner.state.output_dropped.get());
}

#[test]
fn running_task_wakes_itself() {
    let mut spawner = TestSpawner::new();
    spawner.script = Script::YieldOnce;
    let handle = spawner.spawn();

    let next = spawner.next().unwrap();
    spawner.run(next);
    let next = spawner.next().unwrap();
    spawner.run(next);
    assert!(spawner.now_or_never(handle).unwrap().is_ok());
}

#[test]
fn abort_waiting_task() {
    let mut spawner = TestSpawner::new();
    spawner.state.return_pending = true;
    spawner.state.store_waker = true;

    let handle = spawner.spawn();
    let next = spawner.next().unwrap();
    spawner.run(next);
    assert_eq!(spawner.state.num_polls, 1);
    assert!(spawner.state.stashed_waker.is_some());

    // Aborting the task schedules it at once, even if the waker does not fire.
    spawner.queue.abort(&handle);
    let next = spawner.next().unwrap();
    spawner.run(next);

    assert_eq!(spawner.state.num_polls, 1, "task should not be polled again if aborted");
    assert!(spawner.state.task_dropped);
}

#[test]
fn spawn_counts_references() {
    let mut queue: TaskQueue<u32, u32> = TaskQueue::new();
    let handle = queue.spawn();
    let id = handle.id();
    assert_eq!(id, 0);
    // The registration, the runnable and the join handle.
    assert_eq!(queue.cell(id).unwrap().refcount, 3);
    assert!(queue.cell(id).unwrap().state.scheduled);
    assert!(matches!(queue.cell(id).unwrap().body, Body::Future));
    assert_eq!(queue.tasks(), 1);
    assert_eq!(queue.runnable(), 1);

    let runnable = queue.next().unwrap();
    let running = match queue.begin_run(runnable) {
        RunStep::Poll(running) => running,
        _ => panic!("expected a poll"),
    };
    assert!(queue.cell(id).unwrap().state.running);
    assert!(!queue.cell(id).unwrap().state.scheduled);
    let exit = queue.finish_run(running, PollOutcome::Ready(5));
    assert!(exit.finished);
    assert!(!exit.rescheduled);
    assert_eq!(exit.wake, None);
    // Only the join handle is left.
    assert_eq!(queue.cell(id).unwrap().refcount, 1);
    assert_eq!(queue.tasks(), 0);
    match queue.poll_join(handle, 0) {
        JoinPoll::Ready(r) => assert_eq!(r, Ok(5)),
        JoinPoll::Pending(_) => panic!("expected the result"),
    }
    // The cell is freed with its last reference.
    assert!(queue.cell(id).is_none());
}

#[test]
fn join_waker_is_fired_on_completion() {
    let mut queue: TaskQueue<u32, u32> = TaskQueue::new();
    let handle = queue.spawn();
    let handle = match queue.poll_join(handle, 42) {
        JoinPoll::Pending(h) => h,
        JoinPoll::Ready(_) => panic!("the task has not run"),
    };
    let runnable = queue.next().unwrap();
    let running = match queue.begin_run(runnable) {
        RunStep::Poll(running) => running,
        _ => panic!("expected a poll"),
    };
    let exit = queue.finish_run(running, PollOutcome::Ready(2));
    assert_eq!(exit.wake, Some(42));
    match queue.poll_join(handle, 42) {
        JoinPoll::Ready(r) => assert_eq!(r, Ok(2)),
        JoinPoll::Pending(_) => panic!("expected the result"),
    }
}

#[test]
fn cancelled_task_reports_cancelled() {
    let mut queue: TaskQueue<u32, u32> = TaskQueue::new();
    let handle = queue.spawn();
    queue.abort(&handle);
    let runnable = queue.next().unwrap();
    assert!(matches!(queue.begin_run(runnable), RunStep::Cancelled(None)));
    match queue.poll_join(handle, 0) {
        JoinPoll::Ready(r) => {
            assert_eq!(r, Err(JoinError::Cancelled));
            assert!(r.unwrap_err().is_cancelled());
            assert!(!r.unwrap_err().is_panic());
        }
        JoinPoll::Pending(_) => panic!("expected the result"),
    }
}

#[test]
fn panicked_task_reports_panicked() {
    let mut queue: TaskQueue<u32, u32> = TaskQueue::new();
    let handle = queue.spawn();
    let runnable = queue.next().unwrap();
    let running = match queue.begin_run(runnable) {
        RunStep::Poll(running) => running,
        _ => panic!("expected a poll"),
    };
    let _ = queue.finish_run(running, PollOutcome::Panicked);
    match queue.poll_join(handle, 0) {
        JoinPoll::Ready(r) => {
            assert_eq!(r, Err(JoinError::Panicked));
            assert!(r.unwrap_err().is_panic());
        }
        JoinPoll::Pending(_) => panic!("expected the result"),
    }
}

#[test]
fn shutdown_fires_join_wakers_and_leaves_no_task() {
    let mut queue: TaskQueue<u32, u32> = TaskQueue::new();
    let first = queue.spawn();
    let second = queue.spawn();
    let first = match queue.poll_join(first, 10) {
        JoinPoll::Pending(h) => h,
        JoinPoll::Ready(_) => panic!("the task has not run"),
    };
    let woken = queue.shutdown();
    assert_eq!(woken, vec![10]);
    assert!(queue.is_closed());
    assert_eq!(queue.tasks(), 0);
    assert_eq!(queue.runnable(), 0);
    for handle in [first, second] {
        let id = handle.id();
        assert!(queue.cell(id).unwrap().state.complete);
        assert!(matches!(queue.cell(id).unwrap().body, Body::Empty));
        match queue.poll_join(handle, 0) {
            JoinPoll::Ready(r) => assert_eq!(r, Err(JoinError::Cancelled)),
            JoinPoll::Pending(_) => panic!("expected the result"),
        }
        assert!(queue.cell(id).is_none());
    }
}

#[test]
fn wake_of_a_scheduled_task_does_not_queue_it_twice() {
    let mut queue: TaskQueue<u32, u32> = TaskQueue::new();
    let handle = queue.spawn();
    let runnable = queue.next().unwrap();
    let running = match queue.begin_run(runnable) {
        RunStep::Poll(running) => running,
        _ => panic!("expected a poll"),
    };
    let waker = queue.waker(&running);
    let second = queue.clone_waker(&waker);
    let exit = queue.finish_run(running, PollOutcome::Pending);
    assert!(!exit.rescheduled);
    assert_eq!(queue.runnable(), 0);
    queue.wake_by_ref(&waker);
    queue.wake_by_ref(&second);
    assert_eq!(queue.runnable(), 1);
    queue.drop_waker(waker);
    queue.wake(second);
    assert_eq!(queue.runnable(), 1);
    let runnable = queue.next().unwrap();
    queue.drop_runnable(runnable);
    queue.detach(handle);
    // The registration is the last reference.
    assert_eq!(queue.cell(0).unwrap().refcount, 1);
}

#[test]
fn runnables_are_dispatched_in_order() {
    let mut queue: TaskQueue<u32, u32> = TaskQueue::new();
    let a = queue.spawn();
    let b = queue.spawn();
    let c = queue.spawn();
    assert_eq!(queue.next().unwrap().id(), a.id());
    assert_eq!(queue.next().unwrap().id(), b.id());
    assert_eq!(queue.next().unwrap().id(), c.id());
    assert!(queue.next().is_none());
}

#[test]
fn task_set_binds_and_removes() {
    let mut set: TaskSet<u32, u32> = TaskSet::new();
    let (runnable, handle) = set.bind();
    assert_eq!(runnable.unwrap().id(), handle.id());
    assert_eq!(set.len(), 1);
    assert_eq!(set.issued(), 1);
    assert_eq!(set.cell(0).unwrap().refcount, 3);
    assert!(set.remove(0));
    assert_eq!(set.cell(0).unwrap().refcount, 2);
    assert!(!set.remove(0));
    assert_eq!(set.len(), 0);
    let woken = set.shutdown();
    assert!(woken.is_empty());
    assert!(set.is_closed());
    let (runnable, handle) = set.bind();
    assert!(runnable.is_none());
    assert_eq!(set.cell(handle.id()).unwrap().refcount, 1);
    assert!(set.cell(handle.id()).unwrap().state.cancelled);
}

#[derive(Debug, Clone, Copy, PartialEq, Eq)]
enum TaskPanicType {
    OnRun,
    Never,
}

#[derive(Debug, Clone, Copy, PartialEq, Eq)]
enum JoinInterest {
    Polled,
    NotPolled,
}

#[derive(Debug, Clone, Copy, PartialEq, Eq)]
enum JoinHandleDrop {
    Immediately,
    FirstPoll,
    AfterNoConsume,
    AfterConsume,
}

#[derive(Debug, Clone, Copy, PartialEq, Eq)]
enum AbortStrategy {
    Immediate,
    FirstPoll,
    LastPoll,
    AfterJoin,
}

fn test_task_combo(
    task_panic: TaskPanicType,
    join_interest: JoinInterest,
    join_handle_op: JoinHandleDrop,
    abort_task: AbortStrategy,
) {
    println!("{task_panic:?} - {join_interest:?} - {join_handle_op:?} - {abort_task:?}");

    let mut spawner = TestSpawner::new();
    spawner.script = match task_panic {
        TaskPanicType::OnRun => Script::YieldAndPanic,
        TaskPanicType::Never => Script::YieldOnce,
    };
    let handle = spawner.spawn();

    let next = spawner.next().unwrap();
    spawner.run(next);

    let mut handle = Some(handle);

    let mut aborted_early = false;

    if matches!(join_interest, JoinInterest::Polled) {
        match spawner.queue.poll_join(handle.take().unwrap(), 0) {
            JoinPoll::Pending(h) => handle = Some(h),
            JoinPoll::Ready(_) => panic!("polling handle should have failed"),
        }
    }

    if abort_task == AbortStrategy::Immediate {
        spawner.queue.abort(handle.as_ref().unwrap());
        aborted_early = true;
    }

    if join_handle_op == JoinHandleDrop::Immediately {
        spawner.queue.detach(handle.take().unwrap());
    }

    // Check that the task was polled.
    assert_eq!(spawner.state.num_polls, 1, "Task should have been polled");

    // Abort the task now that we know the first poll happened.
    if abort_task == AbortStrategy::FirstPoll && join_handle_op != JoinHandleDrop::Immediately {
        spawner.queue.abort(handle.as_ref().unwrap());
        aborted_early = true;
    }

    if join_handle_op == JoinHandleDrop::FirstPoll {
        spawner.queue.detach(handle.take().unwrap());
    }

    // Run the task again, it should complete.
    let next = spawner.next().unwrap();
    spawner.run(next);
    assert!(spawner.next().is_none());

    // The future should be cleaned up now.
    assert!(spawner.state.task_dropped);

    if abort_task == AbortStrategy::LastPoll {
        if let Some(handle) = handle.as_ref() {
            spawner.queue.abort(handle);
        }
    }

    if join_handle_op == JoinHandleDrop::AfterNoConsume {
        spawner.queue.detach(handle.take().unwrap());
    }
    if join_handle_op == JoinHandleDrop::AfterConsume {
        let result = match spawner.queue.poll_join(handle.take().unwrap(), 0) {
            JoinPoll::Ready(result) => result,
            JoinPoll::Pending(_) => panic!("expected completion"),
        };
        match result {
            Ok(_) => {
                assert!(!aborted_early, "task was aborted but still returned output");
            }
            Err(err) if err.is_cancelled() => {
                assert!(
                    aborted_early,
                    "the task result was cancelled but the task was not aborted"
                );
            }
            Err(err) if err.is_panic() => {
                let is_panic_expected = matches!(task_panic, TaskPanicType::OnRun);
                assert!(is_panic_expected, "panic not expected");
            }
            _ => unreachable!(),
        }
    }

    // Output should have been dropped now.
    let output_created = spawner.state.output_dropped.get();
    assert_eq!(
        output_created,
        (!matches!(task_panic, TaskPanicType::OnRun)) && !aborted_early
    );
    // Nothing refers to the cell any more: it is freed.
    assert!(spawner.queue.cell(0).is_none());
}

#[test]
fn combinations() {
    for &task_panic in &[TaskPanicType::Never, TaskPanicType::OnRun] {
        for &join_interest in &[JoinInterest::NotPolled, JoinInterest::Polled] {
            for &join_handle_op in &[
                JoinHandleDrop::AfterConsume,
                JoinHandleDrop::AfterNoConsume,
                JoinHandleDrop::FirstPoll,
                JoinHandleDrop::Immediately,
            ] {
                for &abort_task in &[
                    AbortStrategy::Immediate,
                    AbortStrategy::AfterJoin,
                    AbortStrategy::LastPoll,
                    AbortStrategy::FirstPoll,
                ] {
                    test_task_combo(task_panic, join_interest, join_handle_op, abort_task);
                }
            }
        }
    }
}

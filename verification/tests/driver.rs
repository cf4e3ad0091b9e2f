use std::collections::VecDeque;

use norn::driver::procedure::{CancelPhase, ClosePhase, ParkPhase, ShutdownPhase};
use norn::driver::push::{PushFuture, PushPoll};
use norn::driver::reactor::{Driver, Effects};
use norn::driver::ring::{
    CancelCriteria, DriverEntry, EntryFlags, Failure, Next, RingRequest, RingResponse, REAP_BATCH,
};
use norn::driver::shared::{OpPoll, Shared};
use norn::driver::status::Status;
use norn::driver::token::{
    classify, Token, CANCELLATION_TOKEN, CLOSE_FD_TOKEN, DRAIN_TOKEN, RESERVED_TOKENS,
    UNPARKER_WAKE_TOKEN,
};
use norn::driver::unpark::Unparker;
use norn::error::{Errno, SubmitErrorKind, EBUSY, EINTR};
use norn::executor::park::ParkMode;
use norn::fd::FdKind;
use norn::operation::cqe::{CQEResult, Completion, CQE_F_MORE};
use norn::operation::op::{Op, OpStep};

const ECANCELED: i32 = 125;

/// What sits in the submission queue of the simulated ring.
#[derive(Clone, Copy, Debug, PartialEq)]
enum Sqe {
    /// A request that does nothing, with the tag of its record.
    Noop(u64),
    /// A request of the driver itself.
    Driver(DriverEntry),
}

/// A ring without a kernel: requests that do nothing complete when they are
/// submitted, or stay in flight while `hold` is set.
struct SimRing {
    capacity: usize,
    sq: Vec<Sqe>,
    cq: VecDeque<Completion>,
    in_flight: Vec<u64>,
    unparker_armed: bool,
    drain_pending: bool,
    hold: bool,
    peak_sq: usize,
    submitted: usize,
}

impl SimRing {
    fn new(capacity: usize) -> Self {
        SimRing {
            capacity,
            sq: Vec::new(),
            cq: VecDeque::new(),
            in_flight: Vec::new(),
            unparker_armed: false,
            drain_pending: false,
            hold: false,
            peak_sq: 0,
            submitted: 0,
        }
    }

    fn sq_full(&self) -> bool {
        self.sq.len() >= self.capacity
    }

    fn push(&mut self, sqe: Sqe) -> bool {
        if self.sq_full() {
            return false;
        }
        self.sq.push(sqe);
        self.peak_sq = self.peak_sq.max(self.sq.len());
        true
    }

    fn complete(&mut self, user_data: u64, result: i32) {
        self.cq.push_back(Completion { user_data, result, flags: 0 });
    }

    fn settle(&mut self) {
        if self.drain_pending && self.in_flight.is_empty() {
            self.drain_pending = false;
            self.complete(DRAIN_TOKEN, 0);
        }
    }

    fn submit(&mut self) -> usize {
        let entries: Vec<Sqe> = self.sq.drain(..).collect();
        let n = entries.len();
        for sqe in entries {
            match sqe {
                Sqe::Noop(tag) => {
                    if self.hold {
                        self.in_flight.push(tag);
                    } else {
                        self.complete(tag, 0);
                    }
                }
                Sqe::Driver(DriverEntry::UnparkerRead) => self.unparker_armed = true,
                Sqe::Driver(DriverEntry::Drain) => self.drain_pending = true,
                Sqe::Driver(DriverEntry::AsyncCancel(_)) => self.cancel_all(),
                Sqe::Driver(DriverEntry::Close(_)) => {}
            }
        }
        self.submitted += n;
        self.settle();
        n
    }

    fn cancel_all(&mut self) {
        let tags: Vec<u64> = self.in_flight.drain(..).collect();
        for tag in tags {
            self.complete(tag, -ECANCELED);
        }
        self.settle();
    }

    fn unpark(&mut self) {
        if self.unparker_armed {
            self.unparker_armed = false;
            self.complete(UNPARKER_WAKE_TOKEN, 8);
        }
    }

    fn perform(&mut self, request: RingRequest) -> RingResponse {
        match request {
            RingRequest::Reap => {
                let mut entries = Vec::new();
                while entries.len() < REAP_BATCH {
                    match self.cq.pop_front() {
                        Some(c) => entries.push(c),
                        None => break,
                    }
                }
                RingResponse::Reaped(entries, !self.cq.is_empty())
            }
            RingRequest::Push(entry) => RingResponse::Pushed(self.push(Sqe::Driver(entry))),
            RingRequest::Submit(_) => RingResponse::Submitted(Ok(self.submit())),
            RingRequest::SyncCancel(_) => {
                self.cancel_all();
                RingResponse::SyncCancelled(Ok(()))
            }
        }
    }
}

/// Parks the driver on the simulated ring, and returns what it asks for.
fn park(driver: &mut Driver<usize>, ring: &mut SimRing, mode: ParkMode) -> Effects<usize> {
    let mut effects = Effects::new();
    let (mut phase, mut next) = driver.park(mode);
    loop {
        match next {
            Next::Request(request) => {
                let response = ring.perform(request);
                let step = driver.park_resume(&mut effects, phase, response);
                phase = step.0;
                next = step.1;
            }
            Next::Finished => return effects,
            Next::Failed(f) => panic!("park failed: {:?}", f),
        }
    }
}

/// Shuts the driver down on the simulated ring.
fn shutdown(driver: &mut Driver<usize>, ring: &mut SimRing) -> Effects<usize> {
    let mut effects = Effects::new();
    let (mut phase, mut next) = driver.shutdown(&mut effects);
    loop {
        if effects.unpark {
            ring.unpark();
        }
        match next {
            Next::Request(request) => {
                let response = ring.perform(request);
                let step = driver.shutdown_resume(&mut effects, phase, response);
                phase = step.0;
                next = step.1;
            }
            Next::Finished => return effects,
            Next::Failed(f) => panic!("shutdown failed: {:?}", f),
        }
    }
}

/// Polls an operation until it waits or is over.
fn poll_op(op: &mut Op, shared: &mut Shared<usize>, ring: &mut SimRing, waker: usize) -> OpStep {
    loop {
        match op.poll(shared, ring.sq_full(), waker) {
            OpStep::Push => assert!(ring.push(Sqe::Noop(op.tag()))),
            other => return other,
        }
    }
}

#[test]
fn raced_submit() {
    let mut driver: Driver<usize> = Driver::new();
    let mut ring = SimRing::new(32);
    for round in 0..1000usize {
        // Every other round the kernel holds the requests back, so that the
        // loser of the race is dropped while it is in flight.
        ring.hold = round % 2 == 1;
        let mut a = Op::new(driver.handle());
        let mut b = Op::new(driver.handle());
        assert_eq!(poll_op(&mut a, driver.handle(), &mut ring, 0), OpStep::Pending);
        assert_eq!(poll_op(&mut b, driver.handle(), &mut ring, 1), OpStep::Pending);
        let _ = park(&mut driver, &mut ring, ParkMode::NoPark);
        if ring.hold {
            // The kernel completes only the first.
            ring.in_flight.retain(|tag| *tag != a.tag());
            ring.complete(a.tag(), 0);
        }
        let effects = park(&mut driver, &mut ring, ParkMode::NoPark);
        assert!(effects.wake.contains(&0));
        match poll_op(&mut a, driver.handle(), &mut ring, 0) {
            OpStep::Ready(c) => assert_eq!(c.result, Ok(0)),
            other => panic!("expected a completion, got {:?}", other),
        }
        let ended = a.release(driver.handle());
        assert!(ended.released.freed);
        assert!(!ended.released.cancel);
        let tag = b.tag();
        let ended = b.release(driver.handle());
        if ring.hold {
            // The loser is still with the kernel: it is cancelled, and its
            // record stays until the last completion is reaped.
            assert!(ended.released.cancel);
            assert!(!ended.released.freed);
            assert!(driver.handle().has_record(tag));
        } else {
            assert!(ended.released.freed);
            assert_eq!(ended.released.unconsumed.len(), 1);
        }
    }
    let effects = shutdown(&mut driver, &mut ring);
    assert_eq!(driver.status(), Status::Shutdown);
    // Every cancelled request was reaped, cleaned up and freed.
    assert_eq!(effects.cleanup.len(), 500);
    assert_eq!(effects.freed.len(), 500);
    assert!(effects.cleanup.iter().all(|(_, c)| c.result == Err(Errno::from_raw_os_error(ECANCELED))));
    assert_eq!(driver.handle().records(), 0);
}

#[test]
fn concurrent_submit() {
    let mut driver: Driver<usize> = Driver::new();
    let mut ring = SimRing::new(32);
    let mut ops: Vec<Option<Op>> = Vec::new();
    let mut ready: VecDeque<usize> = VecDeque::new();
    for i in 0..1000usize {
        ops.push(Some(Op::new(driver.handle())));
        ready.push_back(i);
    }
    let mut done = 0;
    let mut rounds = 0;
    while done < 1000 {
        while let Some(i) = ready.pop_front() {
            let mut op = ops[i].take().unwrap();
            match poll_op(&mut op, driver.handle(), &mut ring, i) {
                OpStep::Ready(c) => {
                    assert_eq!(c.result, Ok(0));
                    assert!(op.release(driver.handle()).released.freed);
                    done += 1;
                }
                OpStep::Pending => ops[i] = Some(op),
                other => panic!("unexpected {:?}", other),
            }
            if driver.needs_park(ring.sq_full(), false) {
                break;
            }
        }
        let effects = park(&mut driver, &mut ring, ParkMode::NoPark);
        for waker in effects.wake {
            ready.push_back(waker);
        }
        rounds += 1;
        assert!(rounds < 100_000);
    }
    assert_eq!(ring.submitted, 1000);
    // The submission queue never held more than its size.
    assert!(ring.peak_sq <= 32);
    assert_eq!(driver.handle().waiters(), 0);
    assert_eq!(driver.handle().records(), 0);
    let _ = shutdown(&mut driver, &mut ring);
    assert_eq!(driver.status(), Status::Shutdown);
}

#[test]
fn backpressure_wakes_as_many_as_were_submitted() {
    let mut driver: Driver<usize> = Driver::new();
    let mut ring = SimRing::new(2);
    let mut ops = Vec::new();
    for i in 0..5usize {
        let mut op = Op::new(driver.handle());
        assert_eq!(poll_op(&mut op, driver.handle(), &mut ring, i), OpStep::Pending);
        ops.push(op);
    }
    // Two are in the queue, three wait for room.
    assert_eq!(ring.sq.len(), 2);
    assert_eq!(driver.handle().waiters(), 3);
    assert!(driver.needs_park(ring.sq_full(), false));
    let effects = park(&mut driver, &mut ring, ParkMode::NoPark);
    // Two entries were submitted: the two oldest observers are woken.
    assert_eq!(effects.wake, vec![2, 3]);
    assert_eq!(driver.handle().waiters(), 1);
    for op in ops {
        let _ = op.release(driver.handle());
    }
}

#[test]
fn needs_park_can_look_at_the_rings() {
    let mut driver: Driver<usize> = Driver::new();
    assert!(!driver.needs_park(true, true));
    driver.handle().set_check_rings(true);
    assert!(driver.needs_park(true, false));
    assert!(driver.needs_park(false, true));
    assert!(!driver.needs_park(false, false));
}

#[test]
fn reserved_tokens() {
    assert_eq!(DRAIN_TOKEN, 1);
    assert_eq!(UNPARKER_WAKE_TOKEN, 2);
    assert_eq!(CANCELLATION_TOKEN, 3);
    assert_eq!(CLOSE_FD_TOKEN, 4);
    assert_eq!(RESERVED_TOKENS, 1024);
    assert_eq!(classify(0), Token::Reserved);
    assert_eq!(classify(1), Token::Drain);
    assert_eq!(classify(2), Token::UnparkerWake);
    assert_eq!(classify(3), Token::Cancellation);
    assert_eq!(classify(4), Token::CloseFd);
    assert_eq!(classify(5), Token::Reserved);
    assert_eq!(classify(1024), Token::Reserved);
    assert_eq!(classify(1025), Token::Record);
    assert_eq!(classify(u64::MAX), Token::Record);
    let mut shared: Shared<usize> = Shared::new();
    assert_eq!(shared.next_tag(), 1025);
    assert_eq!(shared.allocate(), 1025);
    assert_eq!(shared.allocate(), 1026);
}

#[test]
fn driver_entries_carry_their_tokens() {
    assert_eq!(DriverEntry::UnparkerRead.user_data(), 2);
    assert_eq!(DriverEntry::Drain.user_data(), 1);
    assert_eq!(DriverEntry::AsyncCancel(CancelCriteria::Any).user_data(), 3);
    assert_eq!(DriverEntry::Close(FdKind::Fd(3)).user_data(), 4);
    assert_eq!(DriverEntry::Drain.flags(), EntryFlags { io_drain: true, skip_success: false });
    assert_eq!(
        DriverEntry::AsyncCancel(CancelCriteria::UserData(2000)).flags(),
        EntryFlags { io_drain: false, skip_success: true }
    );
    assert_eq!(
        DriverEntry::Close(FdKind::Fixed(1)).flags(),
        EntryFlags { io_drain: false, skip_success: true }
    );
    assert_eq!(
        DriverEntry::UnparkerRead.flags(),
        EntryFlags { io_drain: false, skip_success: false }
    );
}

#[test]
fn drain_routes_completions() {
    let mut driver: Driver<usize> = Driver::new();
    let tag = driver.handle().allocate();
    driver.handle().submitted(tag);
    assert_eq!(driver.handle().poll(tag, 9), OpPoll::Pending);
    let mut effects = Effects::new();
    let entries = vec![
        Completion { user_data: CANCELLATION_TOKEN, result: -2, flags: 0 },
        Completion { user_data: CLOSE_FD_TOKEN, result: -9, flags: 0 },
        Completion { user_data: 700, result: 0, flags: 0 },
        Completion { user_data: tag, result: 11, flags: CQE_F_MORE },
        Completion { user_data: tag, result: -5, flags: 0 },
        Completion { user_data: 5000, result: 0, flags: 0 },
    ];
    assert_eq!(driver.drain(&mut effects, &entries), 6);
    // The waker is fired once, by the first completion of the record.
    assert_eq!(effects.wake, vec![9]);
    assert!(effects.cleanup.is_empty());
    assert!(effects.freed.is_empty());
    assert_eq!(driver.status(), Status::Running);
    // The completions wait in the record, in the order of their arrival.
    assert_eq!(
        driver.handle().poll(tag, 9),
        OpPoll::Ready(CQEResult { result: Ok(11), flags: CQE_F_MORE })
    );
    assert_eq!(
        driver.handle().poll(tag, 9),
        OpPoll::Ready(CQEResult { result: Err(Errno::from_raw_os_error(5)), flags: 0 })
    );
    assert_eq!(driver.handle().poll(tag, 9), OpPoll::Finished);
    let released = driver.handle().release(tag);
    assert!(released.freed);
    assert!(!released.cancel);
}

#[test]
fn drain_token_shuts_down_and_wakes_all_waiters() {
    let mut driver: Driver<usize> = Driver::new();
    let mut pushes = Vec::new();
    for i in 0..3usize {
        let mut push = PushFuture::new();
        assert_eq!(push.poll(driver.handle(), true, i), PushPoll::Pending);
        pushes.push(push);
    }
    let mut effects = Effects::new();
    driver.dispatch(&mut effects, Completion { user_data: DRAIN_TOKEN, result: 0, flags: 0 });
    assert_eq!(driver.status(), Status::Shutdown);
    assert_eq!(effects.wake, vec![0, 1, 2]);
    for mut push in pushes {
        match push.poll(driver.handle(), false, 0) {
            PushPoll::ShuttingDown(e) => {
                assert_eq!(e.kind(), SubmitErrorKind::ShuttingDown);
                assert_eq!(e.message(), "reactor is shutting down");
            }
            other => panic!("expected a refusal, got {:?}", other),
        }
        assert_eq!(push.release(driver.handle()), None);
    }
}

#[test]
fn unparker_completion_resets_the_unparker() {
    let mut driver: Driver<usize> = Driver::new();
    driver.unparker().armed();
    driver.unparker().wake();
    assert!(driver.unparker().park().is_parked());
    assert!(driver.unparker().park().woken());
    let mut effects = Effects::new();
    driver.dispatch(
        &mut effects,
        Completion { user_data: UNPARKER_WAKE_TOKEN, result: 8, flags: 0 },
    );
    assert!(!driver.unparker().park().is_parked());
    assert!(!driver.unparker().park().woken());
    let unparker = Unparker::new();
    assert!(!unparker.park().is_parked());
}

#[test]
fn park_arms_the_unparker_once() {
    let mut driver: Driver<usize> = Driver::new();
    let mut effects = Effects::new();
    let (phase, next) = driver.park(ParkMode::NextCompletion);
    assert_eq!(next, Next::Request(RingRequest::Reap));
    let (phase, next) =
        driver.park_resume(&mut effects, phase, RingResponse::Reaped(Vec::new(), false));
    assert_eq!(phase, ParkPhase::Arming { mode: ParkMode::NextCompletion });
    assert_eq!(next, Next::Request(RingRequest::Push(DriverEntry::UnparkerRead)));
    let (phase, next) = driver.park_resume(&mut effects, phase, RingResponse::Pushed(true));
    assert_eq!(next, Next::Request(RingRequest::Submit(ParkMode::NextCompletion)));
    let (phase, next) = driver.park_resume(&mut effects, phase, RingResponse::Submitted(Ok(1)));
    assert_eq!(phase, ParkPhase::Finished);
    assert_eq!(next, Next::Finished);
    // The read is in the ring: the next park does not arm again.
    let (phase, _) = driver.park(ParkMode::NextCompletion);
    let (_, next) =
        driver.park_resume(&mut effects, phase, RingResponse::Reaped(Vec::new(), false));
    assert_eq!(next, Next::Request(RingRequest::Submit(ParkMode::NextCompletion)));
}

#[test]
fn park_does_not_block_after_a_drain_or_a_wake() {
    let mut driver: Driver<usize> = Driver::new();
    let mut effects = Effects::new();
    // A completion was drained: do not block.
    let (phase, _) = driver.park(ParkMode::NextCompletion);
    let entries = vec![Completion { user_data: CANCELLATION_TOKEN, result: 0, flags: 0 }];
    let (_, next) = driver.park_resume(&mut effects, phase, RingResponse::Reaped(entries, false));
    assert_eq!(next, Next::Request(RingRequest::Submit(ParkMode::NoPark)));
    // The unparker could not be armed: do not block.
    let (phase, _) = driver.park(ParkMode::NextCompletion);
    let (phase, _) =
        driver.park_resume(&mut effects, phase, RingResponse::Reaped(Vec::new(), false));
    let (_, next) = driver.park_resume(&mut effects, phase, RingResponse::Pushed(false));
    assert_eq!(next, Next::Request(RingRequest::Submit(ParkMode::NoPark)));
    // A wake has arrived: do not block.
    driver.unparker().armed();
    driver.unparker().wake();
    let (phase, _) = driver.park(ParkMode::NextCompletion);
    let (_, next) =
        driver.park_resume(&mut effects, phase, RingResponse::Reaped(Vec::new(), false));
    assert_eq!(next, Next::Request(RingRequest::Submit(ParkMode::NoPark)));
}

#[test]
fn park_retries_busy_and_interrupted_submissions() {
    let mut driver: Driver<usize> = Driver::new();
    driver.unparker().armed();
    let mut effects = Effects::new();
    let (phase, _) = driver.park(ParkMode::NextCompletion);
    let (phase, next) =
        driver.park_resume(&mut effects, phase, RingResponse::Reaped(Vec::new(), false));
    assert_eq!(next, Next::Request(RingRequest::Submit(ParkMode::NextCompletion)));
    // Interrupted: the same submission again.
    let (phase, next) = driver.park_resume(
        &mut effects,
        phase,
        RingResponse::Submitted(Err(Errno::from_raw_os_error(EINTR))),
    );
    assert_eq!(next, Next::Request(RingRequest::Submit(ParkMode::NextCompletion)));
    // Busy: drain, then submit without blocking.
    let (phase, next) = driver.park_resume(
        &mut effects,
        phase,
        RingResponse::Submitted(Err(Errno::from_raw_os_error(EBUSY))),
    );
    assert_eq!(next, Next::Request(RingRequest::Reap));
    let (phase, next) =
        driver.park_resume(&mut effects, phase, RingResponse::Reaped(Vec::new(), false));
    assert_eq!(next, Next::Request(RingRequest::Submit(ParkMode::NoPark)));
    // Any other error ends the park.
    let (phase, next) = driver.park_resume(
        &mut effects,
        phase,
        RingResponse::Submitted(Err(Errno::from_raw_os_error(12))),
    );
    assert_eq!(phase, ParkPhase::Finished);
    assert_eq!(next, Next::Failed(Failure::Os(Errno::from_raw_os_error(12))));
}

#[test]
fn park_drains_in_batches() {
    let mut driver: Driver<usize> = Driver::new();
    let mut effects = Effects::new();
    let (phase, _) = driver.park(ParkMode::NoPark);
    let batch: Vec<Completion> =
        (0..32).map(|_| Completion { user_data: CLOSE_FD_TOKEN, result: 0, flags: 0 }).collect();
    let (phase, next) = driver.park_resume(&mut effects, phase, RingResponse::Reaped(batch, true));
    assert_eq!(phase, ParkPhase::Reaping { mode: ParkMode::NoPark, total: 32, busy: false });
    assert_eq!(next, Next::Request(RingRequest::Reap));
    let (_, next) =
        driver.park_resume(&mut effects, phase, RingResponse::Reaped(Vec::new(), false));
    assert_eq!(next, Next::Request(RingRequest::Submit(ParkMode::NoPark)));
}

#[test]
fn a_wrong_answer_fails_the_procedure() {
    let mut driver: Driver<usize> = Driver::new();
    let mut effects = Effects::new();
    let (phase, _) = driver.park(ParkMode::NoPark);
    let (phase, next) = driver.park_resume(&mut effects, phase, RingResponse::Pushed(true));
    assert_eq!(phase, ParkPhase::Finished);
    assert_eq!(next, Next::Failed(Failure::Protocol));
}

#[test]
fn shutdown_drains_the_ring() {
    let mut driver: Driver<usize> = Driver::new();
    let mut effects = Effects::new();
    let (phase, next) = driver.shutdown(&mut effects);
    assert!(effects.unpark);
    assert_eq!(phase, ShutdownPhase::Submitting);
    assert_eq!(next, Next::Request(RingRequest::Submit(ParkMode::NoPark)));
    let (phase, next) = driver.shutdown_resume(&mut effects, phase, RingResponse::Submitted(Ok(0)));
    assert_eq!(next, Next::Request(RingRequest::SyncCancel(CancelCriteria::Any)));
    let (phase, next) =
        driver.shutdown_resume(&mut effects, phase, RingResponse::SyncCancelled(Ok(())));
    assert_eq!(next, Next::Request(RingRequest::Push(DriverEntry::Drain)));
    // The queue is full: the round starts over, and the driver is still
    // running.
    let (phase, next) = driver.shutdown_resume(&mut effects, phase, RingResponse::Pushed(false));
    assert_eq!(driver.status(), Status::Running);
    assert_eq!(phase, ShutdownPhase::Submitting);
    assert_eq!(next, Next::Request(RingRequest::Submit(ParkMode::NoPark)));
    let (phase, _) = driver.shutdown_resume(&mut effects, phase, RingResponse::Submitted(Ok(32)));
    let (phase, _) =
        driver.shutdown_resume(&mut effects, phase, RingResponse::SyncCancelled(Ok(())));
    let (phase, next) = driver.shutdown_resume(&mut effects, phase, RingResponse::Pushed(true));
    assert_eq!(driver.status(), Status::Draining);
    assert_eq!(next, Next::Request(RingRequest::Reap));
    // The park finds the end of the drain.
    let entries = vec![Completion { user_data: DRAIN_TOKEN, result: 0, flags: 0 }];
    let (phase, next) =
        driver.shutdown_resume(&mut effects, phase, RingResponse::Reaped(entries, false));
    assert_eq!(driver.status(), Status::Shutdown);
    assert_eq!(next, Next::Request(RingRequest::Submit(ParkMode::NoPark)));
    let (phase, next) = driver.shutdown_resume(&mut effects, phase, RingResponse::Submitted(Ok(0)));
    assert_eq!(phase, ShutdownPhase::Finished);
    assert_eq!(next, Next::Finished);
    // Shutting down again does nothing.
    let mut effects = Effects::new();
    let (phase, next) = driver.shutdown(&mut effects);
    assert_eq!(phase, ShutdownPhase::Finished);
    assert_eq!(next, Next::Finished);
    assert!(!effects.unpark);
}

#[test]
fn shutdown_fails_with_the_error_of_the_ring() {
    let mut driver: Driver<usize> = Driver::new();
    let mut effects = Effects::new();
    let (phase, _) = driver.shutdown(&mut effects);
    let (phase, next) = driver.shutdown_resume(
        &mut effects,
        phase,
        RingResponse::Submitted(Err(Errno::from_raw_os_error(9))),
    );
    assert_eq!(phase, ShutdownPhase::Finished);
    assert_eq!(next, Next::Failed(Failure::Os(Errno::from_raw_os_error(9))));
}

#[test]
fn cancel_prefers_the_asynchronous_request() {
    let mut driver: Driver<usize> = Driver::new();
    let mut effects = Effects::new();
    let criteria = CancelCriteria::UserData(2000);
    let (phase, next) = driver.cancel(criteria, false);
    assert_eq!(next, Next::Request(RingRequest::Submit(ParkMode::NoPark)));
    let (phase, next) = driver.cancel_resume(&mut effects, phase, RingResponse::Submitted(Ok(3)));
    assert_eq!(next, Next::Request(RingRequest::Push(DriverEntry::AsyncCancel(criteria))));
    let (phase, next) = driver.cancel_resume(&mut effects, phase, RingResponse::Pushed(true));
    assert_eq!((phase, next), (CancelPhase::Finished, Next::Finished));
    // The queue is full: cancel synchronously.
    let (phase, _) = driver.cancel(criteria, false);
    let (phase, _) = driver.cancel_resume(&mut effects, phase, RingResponse::Submitted(Ok(0)));
    let (phase, next) = driver.cancel_resume(&mut effects, phase, RingResponse::Pushed(false));
    assert_eq!(next, Next::Request(RingRequest::SyncCancel(criteria)));
    let (phase, next) = driver.cancel_resume(
        &mut effects,
        phase,
        RingResponse::SyncCancelled(Err(Errno::from_raw_os_error(2))),
    );
    assert_eq!(phase, CancelPhase::Finished);
    assert_eq!(next, Next::Failed(Failure::Os(Errno::from_raw_os_error(2))));
    // Synchronous cancellation goes to the system call at once.
    let (phase, _) = driver.cancel(CancelCriteria::Fd(FdKind::Fd(4)), true);
    let (_, next) = driver.cancel_resume(&mut effects, phase, RingResponse::Submitted(Ok(0)));
    assert_eq!(next, Next::Request(RingRequest::SyncCancel(CancelCriteria::Fd(FdKind::Fd(4)))));
}

#[test]
fn close_fd_submits_once_when_the_queue_is_full() {
    let mut driver: Driver<usize> = Driver::new();
    let mut effects = Effects::new();
    let kind = FdKind::Fd(7);
    let (phase, next) = driver.close_fd(kind);
    assert_eq!(next, Next::Request(RingRequest::Push(DriverEntry::Close(kind))));
    let (phase, next) = driver.close_fd_resume(&mut effects, phase, RingResponse::Pushed(true));
    assert_eq!((phase, next), (ClosePhase::Finished, Next::Finished));

    let (phase, _) = driver.close_fd(kind);
    let (phase, next) = driver.close_fd_resume(&mut effects, phase, RingResponse::Pushed(false));
    assert_eq!(next, Next::Request(RingRequest::Submit(ParkMode::NoPark)));
    let (phase, next) = driver.close_fd_resume(&mut effects, phase, RingResponse::Submitted(Ok(1)));
    assert_eq!(next, Next::Request(RingRequest::Push(DriverEntry::Close(kind))));
    let (phase, next) = driver.close_fd_resume(&mut effects, phase, RingResponse::Pushed(false));
    assert_eq!(phase, ClosePhase::Finished);
    assert_eq!(next, Next::Failed(Failure::QueueFull));
}

#[test]
fn status_only_moves_forward() {
    assert!(Status::Running.accepts_requests());
    assert!(!Status::Draining.accepts_requests());
    assert!(!Status::Shutdown.accepts_requests());
    let mut shared: Shared<usize> = Shared::new();
    assert_eq!(shared.status(), Status::Running);
    assert!(shared.set_status(Status::Running).is_empty());
    let mut push = PushFuture::new();
    assert_eq!(push.poll(&mut shared, true, 4), PushPoll::Pending);
    // A change of status notifies the waiters.
    assert_eq!(shared.set_status(Status::Draining), vec![4]);
    assert_eq!(shared.status(), Status::Draining);
    let _ = push.release(&mut shared);
}

#[test]
fn a_dropped_operation_outlives_its_caller() {
    let mut shared: Shared<usize> = Shared::new();
    let mut op = Op::new(&mut shared);
    let tag = op.tag();
    assert!(!op.is_submitted());
    assert_eq!(op.poll(&mut shared, false, 1), OpStep::Push);
    assert!(op.is_submitted());
    assert_eq!(op.poll(&mut shared, false, 1), OpStep::Pending);
    let ended = op.release(&mut shared);
    assert!(ended.released.cancel);
    assert!(!ended.released.freed);
    assert!(shared.has_record(tag));
    // A completion that announces more is for the cleanup, and the record
    // stays.
    let d = shared.deliver(tag, 3, CQE_F_MORE);
    assert!(d.cleanup);
    assert!(!d.freed);
    assert_eq!(d.wake, None);
    assert!(shared.has_record(tag));
    // The last completion frees the record.
    let d = shared.deliver(tag, -ECANCELED, 0);
    assert!(d.cleanup);
    assert!(d.freed);
    assert!(!shared.has_record(tag));
    assert_eq!(shared.records(), 0);
}

#[test]
fn an_operation_that_was_never_submitted_is_freed_at_once() {
    let mut shared: Shared<usize> = Shared::new();
    let op = Op::new(&mut shared);
    assert_eq!(shared.records(), 1);
    let ended = op.release(&mut shared);
    assert!(ended.released.freed);
    assert!(!ended.released.cancel);
    assert!(ended.released.unconsumed.is_empty());
    assert_eq!(ended.forwarded, None);
    assert_eq!(shared.records(), 0);
}

#[test]
fn a_dropped_push_forwards_its_room() {
    let mut shared: Shared<usize> = Shared::new();
    let mut first = Op::new(&mut shared);
    let mut second = Op::new(&mut shared);
    assert_eq!(first.poll(&mut shared, true, 1), OpStep::Pending);
    assert_eq!(second.poll(&mut shared, true, 2), OpStep::Pending);
    assert_eq!(shared.backpressure().notify(1), vec![1]);
    // The first is dropped after it was notified: the second inherits.
    let ended = first.release(&mut shared);
    assert_eq!(ended.forwarded, Some(2));
    assert_eq!(second.poll(&mut shared, false, 2), OpStep::Push);
    let _ = second.release(&mut shared);
}

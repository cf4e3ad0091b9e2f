//! The procedures of the driver: parking, shutting down, cancelling and
//! closing.
//!
//! Each procedure is started with a call that names its first request, and
//! resumed with the answer to each request until it is finished or has
//! failed.

use vstd::prelude::*;
use crate::driver::reactor::{Driver, DriverView, Effects, EffectsView};
use crate::driver::ring::{
    CancelCriteria,
    DriverEntry,
    Failure,
    Next,
    ResponseView,
    RingRequest,
    RingResponse,
};
use crate::driver::shared::SharedView;
use crate::driver::status::Status;
use crate::driver::unpark::ParkState;
use crate::error::{EBUSY, EINTR};
use crate::executor::park::ParkMode;
use crate::fd::FdKind;

verus! {

/// Where a park stands.
#[derive(Debug, PartialEq, Eq, Clone, Copy, Structural)]
pub enum ParkPhase {
    /// The completion queue is being drained. `total` completions were
    /// worked on so far; `busy` says that the drain follows a submission
    /// that the kernel refused as busy.
    Reaping { mode: ParkMode, total: usize, busy: bool },
    /// The read on the wake file is being pushed.
    Arming { mode: ParkMode },
    /// The submission queue is being submitted. `mode` is the mode of the
    /// park, which a submission that is interrupted starts over with.
    Submitting { mode: ParkMode },
    /// The park is over.
    Finished,
}

/// Where a shutdown stands.
#[derive(Debug, PartialEq, Eq, Clone, Copy, Structural)]
pub enum ShutdownPhase {
    /// The submission queue is being submitted.
    Submitting,
    /// All requests are being cancelled.
    Cancelling,
    /// The request that marks the end of the drain is being pushed.
    Pushing,
    /// The driver parks until the end of the drain arrives.
    Parking(ParkPhase),
    /// The shutdown is over.
    Finished,
}

/// Where a cancellation stands.
#[derive(Debug, PartialEq, Eq, Clone, Copy, Structural)]
pub enum CancelPhase {
    /// The submission queue is being submitted, so that the requests to
    /// cancel are with the kernel.
    Submitting { criteria: CancelCriteria, sync: bool },
    /// The asynchronous cancellation is being pushed.
    Pushing { criteria: CancelCriteria },
    /// The cancellation is made with a system call of its own.
    Cancelling,
    /// The cancellation is over.
    Finished,
}

/// Where the closing of a descriptor stands.
#[derive(Debug, PartialEq, Eq, Clone, Copy, Structural)]
pub enum ClosePhase {
    /// The request is being pushed.
    Pushing { kind: FdKind },
    /// The submission queue was full: it is being submitted.
    Submitting { kind: FdKind },
    /// The request is being pushed again.
    Retrying,
    /// The closing is over.
    Finished,
}

/// A step of a park: the driver and what it asks of the caller, where the
/// park stands, and how it goes on.
pub struct ParkStep<W> {
    /// The driver.
    pub driver: DriverView<W>,
    /// What is asked of the caller.
    pub effects: EffectsView<W>,
    /// Where the park stands.
    pub phase: ParkPhase,
    /// How the park goes on.
    pub next: Next,
}

/// A step of a shutdown.
pub struct ShutdownStep<W> {
    /// The driver.
    pub driver: DriverView<W>,
    /// What is asked of the caller.
    pub effects: EffectsView<W>,
    /// Where the shutdown stands.
    pub phase: ShutdownPhase,
    /// How the shutdown goes on.
    pub next: Next,
}

/// The sum of two counts, or the largest count if the sum is larger.
pub open spec fn saturating_sum(a: usize, b: nat) -> usize {
    if a + b <= usize::MAX {
        (a + b) as usize
    } else {
        usize::MAX
    }
}

impl<W> DriverView<W> {
    /// The mode in which a park in mode `mode` submits: a park that may
    /// block does so only if no wake has arrived since the unparker was
    /// last reset. A driver that is not running does not look at the
    /// unparker.
    pub open spec fn effective_mode(self, mode: ParkMode) -> ParkMode {
        if mode.blocks() && self.shared.status == Status::Running && self.unparker.woken {
            ParkMode::NoPark
        } else {
            mode
        }
    }

    /// Whether a park in mode `mode` has to put the read on the wake file
    /// into the ring first: it may block, the driver is running, and no
    /// such read is in the ring.
    pub open spec fn needs_arming(self, mode: ParkMode) -> bool {
        mode.blocks() && self.shared.status == Status::Running && !self.unparker.parked
    }

    /// The submission of a park in mode `mode` begins.
    pub open spec fn begin_submit(self, e: EffectsView<W>, mode: ParkMode) -> ParkStep<W> {
        if self.needs_arming(mode) {
            ParkStep {
                driver: self,
                effects: e,
                phase: ParkPhase::Arming { mode },
                next: Next::Request(RingRequest::Push(DriverEntry::UnparkerRead)),
            }
        } else {
            ParkStep {
                driver: self,
                effects: e,
                phase: ParkPhase::Submitting { mode },
                next: Next::Request(RingRequest::Submit(self.effective_mode(mode))),
            }
        }
    }

    /// The driver after `n` entries were submitted: as many observers that
    /// wait for room in the submission queue are notified.
    pub open spec fn submitted(self, n: usize) -> Self {
        DriverView {
            shared: SharedView {
                backpressure: self.shared.backpressure.notify(n as nat),
                ..self.shared
            },
            ..self
        }
    }

    /// The park in phase `phase` resumes with the answer `response`.
    ///
    /// A park drains the completion queue first; if that finds anything,
    /// or the kernel was busy, the park does not block. It then arms the
    /// unparker if need be, and submits. A submission that the kernel
    /// refuses as busy leads to another drain, one that was interrupted is
    /// made again, and any other error ends the park.
    pub open spec fn park_resume(
        self,
        e: EffectsView<W>,
        phase: ParkPhase,
        response: ResponseView,
    ) -> ParkStep<W> {
        match (phase, response) {
            (ParkPhase::Reaping { mode, total, busy }, ResponseView::Reaped(entries, more)) => {
                let drained = self.drain(e, entries);
                let sum = saturating_sum(total, entries.len());
                if more && sum < usize::MAX {
                    ParkStep {
                        driver: drained.driver,
                        effects: drained.effects,
                        phase: ParkPhase::Reaping { mode, total: sum, busy },
                        next: Next::Request(RingRequest::Reap),
                    }
                } else {
                    drained.driver.begin_submit(
                        drained.effects,
                        if busy || sum > 0 {
                            ParkMode::NoPark
                        } else {
                            mode
                        },
                    )
                }
            },
            (ParkPhase::Arming { mode }, ResponseView::Pushed(ok)) => ParkStep {
                driver: if ok {
                    DriverView { unparker: ParkState { parked: true, ..self.unparker }, ..self }
                } else {
                    self
                },
                effects: e,
                phase: ParkPhase::Submitting { mode },
                next: Next::Request(
                    RingRequest::Submit(
                        if ok && !self.unparker.woken {
                            mode
                        } else {
                            ParkMode::NoPark
                        },
                    ),
                ),
            },
            (ParkPhase::Submitting { mode }, ResponseView::Submitted(Ok(n))) => ParkStep {
                driver: self.submitted(n),
                effects: e.woken(self.shared.backpressure.notified_wakers(n as nat)),
                phase: ParkPhase::Finished,
                next: Next::Finished,
            },
            (ParkPhase::Submitting { mode }, ResponseView::Submitted(Err(err))) => {
                if err.code == EBUSY {
                    ParkStep {
                        driver: self,
                        effects: e,
                        phase: ParkPhase::Reaping { mode: ParkMode::NoPark, total: 0, busy: true },
                        next: Next::Request(RingRequest::Reap),
                    }
                } else if err.code == EINTR {
                    self.begin_submit(e, mode)
                } else {
                    ParkStep {
                        driver: self,
                        effects: e,
                        phase: ParkPhase::Finished,
                        next: Next::Failed(Failure::Os(err)),
                    }
                }
            },
            _ => ParkStep {
                driver: self,
                effects: e,
                phase: ParkPhase::Finished,
                next: Next::Failed(Failure::Protocol),
            },
        }
    }

    /// A round of the shutdown begins.
    ///
    /// A driver that has shut down is done. A driver that is running wakes
    /// the unparker and submits what is in the submission queue. A driver
    /// that is draining parks until the next completion.
    pub open spec fn shutdown_round(self, e: EffectsView<W>) -> ShutdownStep<W> {
        match self.shared.status {
            Status::Shutdown => ShutdownStep {
                driver: self,
                effects: e,
                phase: ShutdownPhase::Finished,
                next: Next::Finished,
            },
            Status::Running => ShutdownStep {
                driver: DriverView { unparker: ParkState { woken: true, ..self.unparker }, ..self },
                effects: EffectsView { unpark: true, ..e },
                phase: ShutdownPhase::Submitting,
                next: Next::Request(RingRequest::Submit(ParkMode::NoPark)),
            },
            Status::Draining => ShutdownStep {
                driver: self,
                effects: e,
                phase: ShutdownPhase::Parking(
                    ParkPhase::Reaping { mode: ParkMode::NextCompletion, total: 0, busy: false },
                ),
                next: Next::Request(RingRequest::Reap),
            },
        }
    }

    /// The shutdown in phase `phase` resumes with the answer `response`.
    ///
    /// After the submission all requests are cancelled, and the request
    /// that marks the end of the drain is pushed; once it is in the queue
    /// the driver, if it is running, is draining. The driver then parks until the completion
    /// of that request has shut it down. An error ends the shutdown.
    pub open spec fn shutdown_resume(
        self,
        e: EffectsView<W>,
        phase: ShutdownPhase,
        response: ResponseView,
    ) -> ShutdownStep<W> {
        match (phase, response) {
            (ShutdownPhase::Submitting, ResponseView::Submitted(Ok(n))) => ShutdownStep {
                driver: self.submitted(n),
                effects: e.woken(self.shared.backpressure.notified_wakers(n as nat)),
                phase: ShutdownPhase::Cancelling,
                next: Next::Request(RingRequest::SyncCancel(CancelCriteria::Any)),
            },
            (ShutdownPhase::Submitting, ResponseView::Submitted(Err(err))) => ShutdownStep {
                driver: self,
                effects: e,
                phase: ShutdownPhase::Finished,
                next: Next::Failed(Failure::Os(err)),
            },
            (ShutdownPhase::Cancelling, ResponseView::SyncCancelled(Ok(_))) => ShutdownStep {
                driver: self,
                effects: e,
                phase: ShutdownPhase::Pushing,
                next: Next::Request(RingRequest::Push(DriverEntry::Drain)),
            },
            (ShutdownPhase::Cancelling, ResponseView::SyncCancelled(Err(err))) => ShutdownStep {
                driver: self,
                effects: e,
                phase: ShutdownPhase::Finished,
                next: Next::Failed(Failure::Os(err)),
            },
            (ShutdownPhase::Pushing, ResponseView::Pushed(ok)) => {
                if ok && self.shared.status == Status::Running {
                    (DriverView {
                        shared: self.shared.set_status(Status::Draining),
                        ..self
                    }).shutdown_round(e.woken(self.shared.set_status_wakers(Status::Draining)))
                } else {
                    self.shutdown_round(e)
                }
            },
            (ShutdownPhase::Parking(park), response) => {
                let step = self.park_resume(e, park, response);
                match step.next {
                    Next::Finished => step.driver.shutdown_round(step.effects),
                    Next::Failed(f) => ShutdownStep {
                        driver: step.driver,
                        effects: step.effects,
                        phase: ShutdownPhase::Finished,
                        next: Next::Failed(f),
                    },
                    Next::Request(r) => ShutdownStep {
                        driver: step.driver,
                        effects: step.effects,
                        phase: ShutdownPhase::Parking(step.phase),
                        next: Next::Request(r),
                    },
                }
            },
            _ => ShutdownStep {
                driver: self,
                effects: e,
                phase: ShutdownPhase::Finished,
                next: Next::Failed(Failure::Protocol),
            },
        }
    }
}

/// How the cancellation in phase `phase` goes on with the answer
/// `response`.
///
/// The submission queue is submitted first. Unless the cancellation has to
/// be synchronous, a cancellation request is then pushed into the
/// submission queue; if the queue is full, or the cancellation has to be
/// synchronous, the cancellation is made with a system call of its own.
pub open spec fn cancel_resume(phase: CancelPhase, response: ResponseView) -> (CancelPhase, Next) {
    match (phase, response) {
        (CancelPhase::Submitting { criteria, sync }, ResponseView::Submitted(Ok(n))) => {
            if sync {
                (CancelPhase::Cancelling, Next::Request(RingRequest::SyncCancel(criteria)))
            } else {
                (
                    CancelPhase::Pushing { criteria },
                    Next::Request(RingRequest::Push(DriverEntry::AsyncCancel(criteria))),
                )
            }
        },
        (CancelPhase::Submitting { criteria, sync }, ResponseView::Submitted(Err(err))) => (
            CancelPhase::Finished,
            Next::Failed(Failure::Os(err)),
        ),
        (CancelPhase::Pushing { criteria }, ResponseView::Pushed(ok)) => {
            if ok {
                (CancelPhase::Finished, Next::Finished)
            } else {
                (CancelPhase::Cancelling, Next::Request(RingRequest::SyncCancel(criteria)))
            }
        },
        (CancelPhase::Cancelling, ResponseView::SyncCancelled(Ok(_))) => (
            CancelPhase::Finished,
            Next::Finished,
        ),
        (CancelPhase::Cancelling, ResponseView::SyncCancelled(Err(err))) => (
            CancelPhase::Finished,
            Next::Failed(Failure::Os(err)),
        ),
        _ => (CancelPhase::Finished, Next::Failed(Failure::Protocol)),
    }
}

/// How the closing in phase `phase` goes on with the answer `response`.
///
/// The request is pushed; if the submission queue is full, the queue is
/// submitted once and the request is pushed again.
pub open spec fn close_resume(phase: ClosePhase, response: ResponseView) -> (ClosePhase, Next) {
    match (phase, response) {
        (ClosePhase::Pushing { kind }, ResponseView::Pushed(ok)) => {
            if ok {
                (ClosePhase::Finished, Next::Finished)
            } else {
                (ClosePhase::Submitting { kind }, Next::Request(RingRequest::Submit(ParkMode::NoPark)))
            }
        },
        (ClosePhase::Submitting { kind }, ResponseView::Submitted(Ok(n))) => (
            ClosePhase::Retrying,
            Next::Request(RingRequest::Push(DriverEntry::Close(kind))),
        ),
        (ClosePhase::Submitting { kind }, ResponseView::Submitted(Err(err))) => (
            ClosePhase::Finished,
            Next::Failed(Failure::Os(err)),
        ),
        (ClosePhase::Retrying, ResponseView::Pushed(ok)) => {
            if ok {
                (ClosePhase::Finished, Next::Finished)
            } else {
                (ClosePhase::Finished, Next::Failed(Failure::QueueFull))
            }
        },
        _ => (ClosePhase::Finished, Next::Failed(Failure::Protocol)),
    }
}

/// The number of entries that were submitted, if the answer says so.
pub open spec fn submitted_entries(response: ResponseView) -> usize {
    match response {
        ResponseView::Submitted(Ok(n)) => n,
        _ => 0,
    }
}

impl<W> Driver<W> {
    /// Notes that `n` entries were submitted to the kernel: as many
    /// observers that wait for room in the submission queue are notified.
    /// Their wake handles are to be woken.
    pub fn submitted(&mut self, effects: &mut Effects<W>, n: usize)
        ensures
            final(self)@ == old(self)@.submitted(n),
            final(effects)@ == old(effects)@.woken(
                old(self)@.shared.backpressure.notified_wakers(n as nat),
            ),
    {
        let mut woken = self.handle().backpressure().notify(n);
        effects.wake.append(&mut woken);
    }

    /// Begins the submission of a park: prepares the unparker if the park
    /// may block, and names the request.
    fn submit(&mut self, effects: &Effects<W>, mode: ParkMode) -> (r: (ParkPhase, Next))
        ensures
            final(self)@ == old(self)@,
            r.0 == old(self)@.begin_submit(effects@, mode).phase,
            r.1 == old(self)@.begin_submit(effects@, mode).next,
    {
        if mode.blocks() && self.status() == Status::Running {
            let state = self.unparker().park();
            if !state.is_parked() {
                return (
                    ParkPhase::Arming { mode },
                    Next::Request(RingRequest::Push(DriverEntry::UnparkerRead)),
                );
            }
            if state.woken() {
                return (
                    ParkPhase::Submitting { mode },
                    Next::Request(RingRequest::Submit(ParkMode::NoPark)),
                );
            }
        }
        (ParkPhase::Submitting { mode }, Next::Request(RingRequest::Submit(mode)))
    }

    /// Starts a park in the given mode: the completion queue is drained
    /// first.
    pub fn park(&self, mode: ParkMode) -> (r: (ParkPhase, Next))
        ensures
            r.0 == (ParkPhase::Reaping { mode, total: 0, busy: false }),
            r.1 == Next::Request(RingRequest::Reap),
    {
        (ParkPhase::Reaping { mode, total: 0, busy: false }, Next::Request(RingRequest::Reap))
    }

    /// Resumes a park with the answer to its last request.
    pub fn park_resume(
        &mut self,
        effects: &mut Effects<W>,
        phase: ParkPhase,
        response: RingResponse,
    ) -> (r: (ParkPhase, Next))
        ensures
            final(self)@ == old(self)@.park_resume(old(effects)@, phase, response@).driver,
            final(effects)@ == old(self)@.park_resume(old(effects)@, phase, response@).effects,
            r.0 == old(self)@.park_resume(old(effects)@, phase, response@).phase,
            r.1 == old(self)@.park_resume(old(effects)@, phase, response@).next,
    {
        match (phase, response) {
            (ParkPhase::Reaping { mode, total, busy }, RingResponse::Reaped(entries, more)) => {
                let n = self.drain(effects, &entries);
                let sum = if n <= usize::MAX - total {
                    total + n
                } else {
                    usize::MAX
                };
                if more && sum < usize::MAX {
                    (ParkPhase::Reaping { mode, total: sum, busy }, Next::Request(RingRequest::Reap))
                } else {
                    let mode = if busy || sum > 0 {
                        ParkMode::NoPark
                    } else {
                        mode
                    };
                    self.submit(effects, mode)
                }
            },
            (ParkPhase::Arming { mode }, RingResponse::Pushed(ok)) => {
                let woken = self.unparker().park().woken();
                if ok {
                    self.unparker().armed();
                }
                let effective = if ok && !woken {
                    mode
                } else {
                    ParkMode::NoPark
                };
                (ParkPhase::Submitting { mode }, Next::Request(RingRequest::Submit(effective)))
            },
            (ParkPhase::Submitting { mode }, RingResponse::Submitted(Ok(n))) => {
                self.submitted(effects, n);
                (ParkPhase::Finished, Next::Finished)
            },
            (ParkPhase::Submitting { mode }, RingResponse::Submitted(Err(err))) => {
                if err.code == EBUSY {
                    (
                        ParkPhase::Reaping { mode: ParkMode::NoPark, total: 0, busy: true },
                        Next::Request(RingRequest::Reap),
                    )
                } else if err.code == EINTR {
                    self.submit(effects, mode)
                } else {
                    (ParkPhase::Finished, Next::Failed(Failure::Os(err)))
                }
            },
            _ => (ParkPhase::Finished, Next::Failed(Failure::Protocol)),
        }
    }

    /// Begins a round of the shutdown.
    fn shutdown_round(&mut self, effects: &mut Effects<W>) -> (r: (ShutdownPhase, Next))
        ensures
            final(self)@ == old(self)@.shutdown_round(old(effects)@).driver,
            final(effects)@ == old(self)@.shutdown_round(old(effects)@).effects,
            r.0 == old(self)@.shutdown_round(old(effects)@).phase,
            r.1 == old(self)@.shutdown_round(old(effects)@).next,
    {
        match self.status() {
            Status::Shutdown => (ShutdownPhase::Finished, Next::Finished),
            Status::Running => {
                self.unparker().wake();
                effects.unpark = true;
                (ShutdownPhase::Submitting, Next::Request(RingRequest::Submit(ParkMode::NoPark)))
            },
            Status::Draining => {
                let (phase, next) = self.park(ParkMode::NextCompletion);
                (ShutdownPhase::Parking(phase), next)
            },
        }
    }

    /// Starts the shutdown of the driver. A driver that has shut down
    /// already is finished at once.
    pub fn shutdown(&mut self, effects: &mut Effects<W>) -> (r: (ShutdownPhase, Next))
        ensures
            final(self)@ == old(self)@.shutdown_round(old(effects)@).driver,
            final(effects)@ == old(self)@.shutdown_round(old(effects)@).effects,
            r.0 == old(self)@.shutdown_round(old(effects)@).phase,
            r.1 == old(self)@.shutdown_round(old(effects)@).next,
            r.1 == Next::Finished <==> old(self)@.shared.status == Status::Shutdown,
    {
        self.shutdown_round(effects)
    }

    /// Resumes the shutdown with the answer to its last request. When the
    /// shutdown is finished, the driver has shut down.
    pub fn shutdown_resume(
        &mut self,
        effects: &mut Effects<W>,
        phase: ShutdownPhase,
        response: RingResponse,
    ) -> (r: (ShutdownPhase, Next))
        ensures
            final(self)@ == old(self)@.shutdown_resume(old(effects)@, phase, response@).driver,
            final(effects)@ == old(self)@.shutdown_resume(old(effects)@, phase, response@).effects,
            r.0 == old(self)@.shutdown_resume(old(effects)@, phase, response@).phase,
            r.1 == old(self)@.shutdown_resume(old(effects)@, phase, response@).next,
            r.1 == Next::Finished ==> final(self)@.shared.status == Status::Shutdown,
    {
        match (phase, response) {
            (ShutdownPhase::Submitting, RingResponse::Submitted(Ok(n))) => {
                self.submitted(effects, n);
                (
                    ShutdownPhase::Cancelling,
                    Next::Request(RingRequest::SyncCancel(CancelCriteria::Any)),
                )
            },
            (ShutdownPhase::Submitting, RingResponse::Submitted(Err(err))) => (
                ShutdownPhase::Finished,
                Next::Failed(Failure::Os(err)),
            ),
            (ShutdownPhase::Cancelling, RingResponse::SyncCancelled(Ok(_))) => (
                ShutdownPhase::Pushing,
                Next::Request(RingRequest::Push(DriverEntry::Drain)),
            ),
            (ShutdownPhase::Cancelling, RingResponse::SyncCancelled(Err(err))) => (
                ShutdownPhase::Finished,
                Next::Failed(Failure::Os(err)),
            ),
            (ShutdownPhase::Pushing, RingResponse::Pushed(ok)) => {
                if ok && self.status() == Status::Running {
                    let mut woken = self.handle().set_status(Status::Draining);
                    effects.wake.append(&mut woken);
                }
                self.shutdown_round(effects)
            },
            (ShutdownPhase::Parking(park), response) => {
                let (phase, next) = self.park_resume(effects, park, response);
                match next {
                    Next::Finished => self.shutdown_round(effects),
                    Next::Failed(f) => (ShutdownPhase::Finished, Next::Failed(f)),
                    Next::Request(r) => (ShutdownPhase::Parking(phase), Next::Request(r)),
                }
            },
            _ => (ShutdownPhase::Finished, Next::Failed(Failure::Protocol)),
        }
    }

    /// Starts a cancellation request.
    ///
    /// With `sync` set the cancellation is made synchronously. Otherwise an
    /// asynchronous cancellation is attempted first, and the synchronous
    /// one follows if the submission queue has no room for it.
    pub fn cancel(&self, criteria: CancelCriteria, sync: bool) -> (r: (CancelPhase, Next))
        ensures
            r.0 == (CancelPhase::Submitting { criteria, sync }),
            r.1 == Next::Request(RingRequest::Submit(ParkMode::NoPark)),
    {
        (
            CancelPhase::Submitting { criteria, sync },
            Next::Request(RingRequest::Submit(ParkMode::NoPark)),
        )
    }

    /// Resumes a cancellation with the answer to its last request.
    pub fn cancel_resume(
        &mut self,
        effects: &mut Effects<W>,
        phase: CancelPhase,
        response: RingResponse,
    ) -> (r: (CancelPhase, Next))
        ensures
            final(self)@ == old(self)@.submitted(submitted_entries(response@)),
            final(effects)@ == old(effects)@.woken(
                old(self)@.shared.backpressure.notified_wakers(submitted_entries(response@) as nat),
            ),
            r == cancel_resume(phase, response@),
    {
        let ghost before = self@;
        let ghost e0 = effects@;
        let n = match response {
            RingResponse::Submitted(Ok(n)) => n,
            _ => 0,
        };
        self.submitted(effects, n);
        match (phase, response) {
            (CancelPhase::Submitting { criteria, sync }, RingResponse::Submitted(Ok(_))) => {
                if sync {
                    (CancelPhase::Cancelling, Next::Request(RingRequest::SyncCancel(criteria)))
                } else {
                    (
                        CancelPhase::Pushing { criteria },
                        Next::Request(RingRequest::Push(DriverEntry::AsyncCancel(criteria))),
                    )
                }
            },
            (CancelPhase::Submitting { criteria, sync }, RingResponse::Submitted(Err(err))) => (
                CancelPhase::Finished,
                Next::Failed(Failure::Os(err)),
            ),
            (CancelPhase::Pushing { criteria }, RingResponse::Pushed(ok)) => {
                if ok {
                    (CancelPhase::Finished, Next::Finished)
                } else {
                    (CancelPhase::Cancelling, Next::Request(RingRequest::SyncCancel(criteria)))
                }
            },
            (CancelPhase::Cancelling, RingResponse::SyncCancelled(Ok(_))) => (
                CancelPhase::Finished,
                Next::Finished,
            ),
            (CancelPhase::Cancelling, RingResponse::SyncCancelled(Err(err))) => (
                CancelPhase::Finished,
                Next::Failed(Failure::Os(err)),
            ),
            _ => (CancelPhase::Finished, Next::Failed(Failure::Protocol)),
        }
    }

    /// Starts the closing of a descriptor.
    pub fn close_fd(&self, kind: FdKind) -> (r: (ClosePhase, Next))
        ensures
            r.0 == (ClosePhase::Pushing { kind }),
            r.1 == Next::Request(RingRequest::Push(DriverEntry::Close(kind))),
    {
        (ClosePhase::Pushing { kind }, Next::Request(RingRequest::Push(DriverEntry::Close(kind))))
    }

    /// Resumes the closing of a descriptor with the answer to its last
    /// request.
    pub fn close_fd_resume(
        &mut self,
        effects: &mut Effects<W>,
        phase: ClosePhase,
        response: RingResponse,
    ) -> (r: (ClosePhase, Next))
        ensures
            final(self)@ == old(self)@.submitted(submitted_entries(response@)),
            final(effects)@ == old(effects)@.woken(
                old(self)@.shared.backpressure.notified_wakers(submitted_entries(response@) as nat),
            ),
            r == close_resume(phase, response@),
    {
        let n = match response {
            RingResponse::Submitted(Ok(n)) => n,
            _ => 0,
        };
        self.submitted(effects, n);
        match (phase, response) {
            (ClosePhase::Pushing { kind }, RingResponse::Pushed(ok)) => {
                if ok {
                    (ClosePhase::Finished, Next::Finished)
                } else {
                    (
                        ClosePhase::Submitting { kind },
                        Next::Request(RingRequest::Submit(ParkMode::NoPark)),
                    )
                }
            },
            (ClosePhase::Submitting { kind }, RingResponse::Submitted(Ok(_))) => (
                ClosePhase::Retrying,
                Next::Request(RingRequest::Push(DriverEntry::Close(kind))),
            ),
            (ClosePhase::Submitting { kind }, RingResponse::Submitted(Err(err))) => (
                ClosePhase::Finished,
                Next::Failed(Failure::Os(err)),
            ),
            (ClosePhase::Retrying, RingResponse::Pushed(ok)) => {
                if ok {
                    (ClosePhase::Finished, Next::Finished)
                } else {
                    (ClosePhase::Finished, Next::Failed(Failure::QueueFull))
                }
            },
            _ => (ClosePhase::Finished, Next::Failed(Failure::Protocol)),
        }
    }
}

} // verus!

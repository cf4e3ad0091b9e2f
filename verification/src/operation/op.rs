//! An operation in flight: the handle of the caller to an operation
//! record.

use vstd::prelude::*;
use crate::driver::push::{push_step, PushFuture, PushPoll, Waiting};
use crate::driver::shared::{OpPoll, Released, Shared, SharedView};
use crate::error::SubmitError;
use crate::operation::cqe::CQEResult;

verus! {

/// What a poll of an operation gave, or asks of the caller.
#[derive(Debug, PartialEq, Eq, Clone, Copy)]
pub enum OpStep {
    /// The driver is not running: the request was not submitted.
    ShuttingDown(SubmitError),
    /// The submission queue has room: push the entry of the operation now,
    /// with the tag of the record as its user data, and poll again.
    Push,
    /// The oldest completion that was not consumed yet.
    Ready(CQEResult),
    /// No completion is there, and none will come.
    Finished,
    /// Nothing is there yet: the operation waits, for room in the
    /// submission queue or for a completion.
    Pending,
}

/// The mathematical model of an operation in flight.
pub struct OpView {
    /// The tag of the record.
    pub tag: u64,
    /// Whether the request is in the submission queue, or further.
    pub submitted: bool,
    /// The observer that the push of the request waits with.
    pub push: Option<Waiting>,
}

/// A poll of an operation: the shared state and the operation after it, and
/// its result.
pub struct OpPolled<W> {
    /// The shared state.
    pub shared: SharedView<W>,
    /// The operation.
    pub op: OpView,
    /// The result of the poll.
    pub result: OpStep,
}

/// An operation is polled with `waker`, where `sq_full` says whether the
/// submission queue is full.
///
/// An operation whose request is not in the submission queue polls its
/// push; when the entry is to be pushed, the kernel refers to the record
/// from then on. An operation that was submitted polls its record.
pub open spec fn op_step<W>(shared: SharedView<W>, op: OpView, sq_full: bool, waker: W) -> OpPolled<
    W,
> {
    if !op.submitted {
        let step = push_step(shared, op.push, sq_full, waker);
        match step.result {
            PushPoll::ShuttingDown(e) => OpPolled {
                shared: step.shared,
                op: OpView { push: step.push, ..op },
                result: OpStep::ShuttingDown(e),
            },
            PushPoll::Pending => OpPolled {
                shared: step.shared,
                op: OpView { push: step.push, ..op },
                result: OpStep::Pending,
            },
            PushPoll::Push => OpPolled {
                shared: step.shared.submitted(op.tag),
                op: OpView { push: step.push, submitted: true, ..op },
                result: OpStep::Push,
            },
        }
    } else {
        OpPolled {
            shared: shared.poll(op.tag, waker),
            op,
            result: match shared.poll_result(op.tag) {
                OpPoll::Ready(c) => OpStep::Ready(c),
                OpPoll::Finished => OpStep::Finished,
                OpPoll::Pending => OpStep::Pending,
            },
        }
    }
}

/// The shared state after the operation `op` was given up: the observer
/// that its push waited with is given up, and so is the reference of the
/// operation to its record.
pub open spec fn op_released<W>(shared: SharedView<W>, op: OpView) -> SharedView<W> {
    (match op.push {
        Some(w) => SharedView {
            backpressure: shared.backpressure.release(w.key, w.registered),
            ..shared
        },
        None => shared,
    }).release(op.tag)
}

/// The wake handle that giving up the operation `op` hands out.
pub open spec fn op_forwarded<W>(shared: SharedView<W>, op: OpView) -> Option<W> {
    match op.push {
        Some(w) => shared.backpressure.release_waker(w.key, w.registered),
        None => None,
    }
}

/// What giving an operation up asks of the caller.
pub struct Ended<W> {
    /// What is to be done about the request and its record.
    pub released: Released,
    /// The wake handle of the observer that inherits the room in the
    /// submission queue which the operation did not use: it is to be
    /// woken.
    pub forwarded: Option<W>,
}

/// An operation in flight.
#[derive(Debug)]
pub struct Op {
    tag: u64,
    submitted: bool,
    push: PushFuture,
}

impl View for Op {
    type V = OpView;

    closed spec fn view(&self) -> OpView {
        OpView { tag: self.tag, submitted: self.submitted, push: self.push@ }
    }
}

impl Op {
    /// A new operation: its record is made, with the operation as its only
    /// reference. The request is submitted when the operation is polled.
    pub fn new<W>(shared: &mut Shared<W>) -> (op: Self)
        requires
            old(shared)@.next_tag < u64::MAX,
        ensures
            final(shared)@ == old(shared)@.allocate(),
            op@ == (OpView { tag: old(shared)@.next_tag as u64, submitted: false, push: None }),
    {
        let tag: u64 = shared.allocate();
        Op { tag, submitted: false, push: PushFuture::new() }
    }

    /// The tag of the record of the operation: the user data of its
    /// submission.
    pub fn tag(&self) -> (t: u64)
        ensures
            t == self@.tag,
    {
        self.tag
    }

    /// Whether the request is in the submission queue, or further.
    pub fn is_submitted(&self) -> (r: bool)
        ensures
            r == self@.submitted,
    {
        self.submitted
    }

    /// Polls the operation.
    ///
    /// A single-shot operation is over with its first completion. A
    /// multi-shot operation yields completions until it is finished.
    pub fn poll<W>(&mut self, shared: &mut Shared<W>, sq_full: bool, waker: W) -> (r: OpStep)
        requires
            old(shared)@.backpressure.issued < u64::MAX,
        ensures
            final(shared)@ == op_step(old(shared)@, old(self)@, sq_full, waker).shared,
            final(self)@ == op_step(old(shared)@, old(self)@, sq_full, waker).op,
            r == op_step(old(shared)@, old(self)@, sq_full, waker).result,
    {
        if !self.submitted {
            match self.push.poll(shared, sq_full, waker) {
                PushPoll::ShuttingDown(e) => OpStep::ShuttingDown(e),
                PushPoll::Pending => OpStep::Pending,
                PushPoll::Push => {
                    self.submitted = true;
                    shared.submitted(self.tag);
                    OpStep::Push
                },
            }
        } else {
            match shared.poll(self.tag, waker) {
                OpPoll::Ready(c) => OpStep::Ready(c),
                OpPoll::Finished => OpStep::Finished,
                OpPoll::Pending => OpStep::Pending,
            }
        }
    }

    /// Gives the operation up.
    ///
    /// The record stays as long as the kernel refers to it; the request is
    /// to be cancelled if its last completion has not arrived. A push that
    /// was notified of room and did not use it passes the notification on:
    /// the wake handle of the observer that inherits it is returned.
    pub fn release<W>(self, shared: &mut Shared<W>) -> (r: Ended<W>)
        ensures
            final(shared)@ == op_released(old(shared)@, self@),
            r.forwarded == op_forwarded(old(shared)@, self@),
            r.released.freed == (old(shared)@.records.contains_key(self@.tag) && !final(shared)@.records.contains_key(self@.tag)),
            r.released.cancel == (final(shared)@.records.contains_key(self@.tag) && !final(shared)@.records[self@.tag].complete),
            r.released.unconsumed@ == (if old(shared)@.records.contains_key(self@.tag) {
                crate::driver::shared::results(old(shared)@.records[self@.tag].completions)
            } else {
                Seq::empty()
            }),
    {
        let Op { tag, submitted, push } = self;
        let forwarded = push.release(shared);
        let released = shared.release(tag);
        Ended { released, forwarded }
    }
}

} // verus!

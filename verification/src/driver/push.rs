//! Pushing an entry into the submission queue, waiting for room if it is
//! full.

use vstd::prelude::*;
use crate::driver::shared::{Shared, SharedView};
use crate::driver::status::Status;
use crate::error::SubmitError;
use crate::notify::{Notified, State};

verus! {

/// What a poll of a push asks of the caller.
#[derive(Debug, PartialEq, Eq, Clone, Copy)]
pub enum PushPoll {
    /// The driver is not running: the entry is not submitted.
    ShuttingDown(SubmitError),
    /// The submission queue has room: push the entry now.
    Push,
    /// The submission queue is full: the push waits for room.
    Pending,
}

/// A push that waits for room in the submission queue.
#[derive(Debug)]
pub struct PushFuture {
    notify: Option<Notified>,
}

/// The observer that a push waits with.
pub struct Waiting {
    /// The key of the observer.
    pub key: u64,
    /// Whether the observer has joined the queue.
    pub registered: bool,
}

impl View for PushFuture {
    type V = Option<Waiting>;

    closed spec fn view(&self) -> Option<Waiting> {
        match self.notify {
            Some(n) => Some(Waiting { key: n.key(), registered: n.registered() }),
            None => None,
        }
    }
}

/// The state of the observer of a push that waits.
pub open spec fn waiting_state<W>(shared: SharedView<W>, push: Option<Waiting>) -> State {
    match push {
        Some(w) => shared.backpressure.state_of(w.key, w.registered),
        None => State::Completed,
    }
}

/// The key of the observer of a push that waits.
pub open spec fn waiting_key(push: Option<Waiting>) -> u64 {
    match push {
        Some(w) => w.key,
        None => 0,
    }
}

/// A poll of a push: the shared state and the push after it, and its
/// result.
pub struct PushStep<W> {
    /// The shared state.
    pub shared: SharedView<W>,
    /// The observer that the push waits with.
    pub push: Option<Waiting>,
    /// The result of the poll.
    pub result: PushPoll,
}

/// A push is polled with `waker`, where `sq_full` says whether the
/// submission queue is full.
///
/// A driver that is not running refuses the push. A push whose observer is
/// in the queue, or has not joined it yet, waits there with the new wake
/// handle. In every other case the push looks at the submission queue,
/// after its observer, if it has one, has observed its notification: if
/// the queue has room the entry is to be pushed, and if it is full a new
/// observer joins the queue of observers.
pub open spec fn push_step<W>(
    shared: SharedView<W>,
    push: Option<Waiting>,
    sq_full: bool,
    waker: W,
) -> PushStep<W> {
    if shared.status != Status::Running {
        PushStep { shared, push, result: PushPoll::ShuttingDown(SubmitError::shutting_down()) }
    } else {
        match waiting_state(shared, push) {
            State::Unregistered => PushStep {
                shared: SharedView {
                    backpressure: shared.backpressure.register(waiting_key(push), waker),
                    ..shared
                },
                push: Some(Waiting { key: waiting_key(push), registered: true }),
                result: PushPoll::Pending,
            },
            State::Linked => PushStep {
                shared: SharedView {
                    backpressure: shared.backpressure.refresh(waiting_key(push), waker),
                    ..shared
                },
                push,
                result: PushPoll::Pending,
            },
            _ => {
                let seen = if push is Some {
                    shared.backpressure.complete(waiting_key(push))
                } else {
                    shared.backpressure
                };
                if sq_full {
                    PushStep {
                        shared: SharedView {
                            backpressure: seen.wait().register(seen.issued as u64, waker),
                            ..shared
                        },
                        push: Some(Waiting { key: seen.issued as u64, registered: true }),
                        result: PushPoll::Pending,
                    }
                } else {
                    PushStep {
                        shared: SharedView { backpressure: seen, ..shared },
                        push: None,
                        result: PushPoll::Push,
                    }
                }
            },
        }
    }
}

impl PushFuture {
    /// A push that has not been polled.
    pub fn new() -> (p: Self)
        ensures
            p@ is None,
    {
        PushFuture { notify: None }
    }

    /// Polls the push. `sq_full` says whether the submission queue is full.
    ///
    /// A driver that is not running refuses the push. A push that waits in
    /// the queue of observers goes on waiting, with the new wake handle.
    /// Otherwise, if the submission queue has room the entry is to be
    /// pushed; if it is full, the push joins the queue of observers.
    pub fn poll<W>(&mut self, shared: &mut Shared<W>, sq_full: bool, waker: W) -> (r: PushPoll)
        requires
            old(shared)@.backpressure.issued < u64::MAX,
        ensures
            final(shared)@ == push_step(old(shared)@, old(self)@, sq_full, waker).shared,
            final(self)@ == push_step(old(shared)@, old(self)@, sq_full, waker).push,
            r == push_step(old(shared)@, old(self)@, sq_full, waker).result,
    {
        if shared.status() != Status::Running {
            return PushPoll::ShuttingDown(SubmitError::shutting_down());
        }
        let waiting = self.notify.take();
        match waiting {
            Some(mut notified) => {
                match shared.backpressure().state(&notified) {
                    State::Unregistered => {
                        shared.backpressure().register(&mut notified, waker);
                        self.notify = Some(notified);
                        return PushPoll::Pending;
                    },
                    State::Linked => {
                        let _ = shared.backpressure().refresh(&notified, waker);
                        self.notify = Some(notified);
                        return PushPoll::Pending;
                    },
                    _ => {
                        shared.backpressure().complete(&notified);
                    },
                }
            },
            None => {},
        }
        if sq_full {
            let mut notified = shared.backpressure().wait();
            shared.backpressure().register(&mut notified, waker);
            self.notify = Some(notified);
            PushPoll::Pending
        } else {
            PushPoll::Push
        }
    }

    /// Gives the push up. A push that was notified of room, and did not use
    /// it, passes the notification on: the wake handle of the observer that
    /// inherits it is returned.
    pub fn release<W>(self, shared: &mut Shared<W>) -> (forwarded: Option<W>)
        ensures
            match self@ {
                Some(w) => {
                    &&& final(shared)@ == (SharedView {
                        backpressure: old(shared)@.backpressure.release(w.key, w.registered),
                        ..old(shared)@
                    })
                    &&& forwarded == old(shared)@.backpressure.release_waker(w.key, w.registered)
                },
                None => final(shared)@ == old(shared)@ && forwarded is None,
            },
    {
        match self.notify {
            Some(notified) => shared.backpressure().release(notified),
            None => None,
        }
    }
}

} // verus!

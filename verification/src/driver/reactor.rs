//! The driver: it routes completions to the operation records and decides
//! how to park.

use vstd::prelude::*;
use crate::driver::shared::{Shared, SharedView};
use crate::driver::status::Status;
use crate::driver::token::{classify, Token};
use crate::driver::unpark::{ParkState, Unparker};
use crate::operation::cqe::{CQEResult, Completion};

verus! {

/// What the driver asks of the caller after it has worked on completions or
/// on the answer to a request.
pub struct Effects<W> {
    /// The wake handles to be woken, in order.
    pub wake: Vec<W>,
    /// The completions of operations that their callers have given up, each
    /// with the tag of its record: they are for the cleanup of the
    /// operation.
    pub cleanup: Vec<(u64, CQEResult)>,
    /// The tags of the records that were freed: their payloads may be
    /// dropped.
    pub freed: Vec<u64>,
    /// The wake file of the unparker is to be written.
    pub unpark: bool,
}

/// The mathematical model of [`Effects`].
pub struct EffectsView<W> {
    /// The wake handles to be woken, in order.
    pub wake: Seq<W>,
    /// The completions for the cleanup of operations, with their tags.
    pub cleanup: Seq<(u64, CQEResult)>,
    /// The tags of the records that were freed.
    pub freed: Seq<u64>,
    /// The wake file of the unparker is to be written.
    pub unpark: bool,
}

impl<W> View for Effects<W> {
    type V = EffectsView<W>;

    open spec fn view(&self) -> EffectsView<W> {
        EffectsView {
            wake: self.wake@,
            cleanup: self.cleanup@,
            freed: self.freed@,
            unpark: self.unpark,
        }
    }
}

impl<W> Effects<W> {
    /// Nothing is asked.
    pub fn new() -> (e: Self)
        ensures
            e@ == EffectsView::<W>::empty(),
    {
        Effects { wake: Vec::new(), cleanup: Vec::new(), freed: Vec::new(), unpark: false }
    }
}

impl<W> EffectsView<W> {
    /// Nothing is asked.
    pub open spec fn empty() -> Self {
        EffectsView { wake: Seq::empty(), cleanup: Seq::empty(), freed: Seq::empty(), unpark: false }
    }

    /// These wake handles are to be woken as well.
    pub open spec fn woken(self, wake: Seq<W>) -> Self {
        EffectsView { wake: self.wake + wake, ..self }
    }
}

/// The mathematical model of a driver.
pub struct DriverView<W> {
    /// The state that the driver shares with its handles.
    pub shared: SharedView<W>,
    /// The state of the unparker.
    pub unparker: ParkState,
}

/// A driver together with what it asks of the caller.
pub struct Dispatched<W> {
    /// The driver.
    pub driver: DriverView<W>,
    /// What is asked of the caller.
    pub effects: EffectsView<W>,
}

impl<W> DriverView<W> {
    /// The driver, and what it asks, after the completion `c` was worked
    /// on.
    ///
    /// The end of a drain shuts the driver down. The completion of the read
    /// on the wake file resets the unparker. Completions with another tag
    /// of the driver are dropped. A completion with the tag of a record is
    /// delivered to the record.
    pub open spec fn dispatch(self, e: EffectsView<W>, c: Completion) -> Dispatched<W> {
        match classify(c.user_data) {
            Token::Drain => Dispatched {
                driver: DriverView { shared: self.shared.set_status(Status::Shutdown), ..self },
                effects: e.woken(self.shared.set_status_wakers(Status::Shutdown)),
            },
            Token::UnparkerWake => Dispatched {
                driver: DriverView {
                    unparker: ParkState { parked: false, woken: false },
                    ..self
                },
                effects: e,
            },
            Token::Record => {
                let shared = self.shared.deliver(c.user_data, c.result, c.flags);
                let known = self.shared.records.contains_key(c.user_data);
                Dispatched {
                    driver: DriverView { shared, ..self },
                    effects: EffectsView {
                        wake: if known && self.shared.records[c.user_data].waker is Some {
                            e.wake.push(self.shared.records[c.user_data].waker->0)
                        } else {
                            e.wake
                        },
                        cleanup: if known && self.shared.records[c.user_data].refcount <= 1 {
                            e.cleanup.push((c.user_data, CQEResult::new(c.result, c.flags)))
                        } else {
                            e.cleanup
                        },
                        freed: if known && !shared.records.contains_key(c.user_data) {
                            e.freed.push(c.user_data)
                        } else {
                            e.freed
                        },
                        ..e
                    },
                }
            },
            _ => Dispatched { driver: self, effects: e },
        }
    }

    /// The driver, and what it asks, after the completions `entries` were
    /// worked on in their order.
    pub open spec fn drain(self, e: EffectsView<W>, entries: Seq<Completion>) -> Dispatched<W>
        decreases entries.len(),
    {
        if entries.len() == 0 {
            Dispatched { driver: self, effects: e }
        } else {
            let before = self.drain(e, entries.drop_last());
            before.driver.dispatch(before.effects, entries.last())
        }
    }
}

/// The driver of a ring: it submits requests, reaps completions and hands
/// them to the operations that wait for them.
pub struct Driver<W> {
    shared: Shared<W>,
    unparker: Unparker,
}

impl<W> View for Driver<W> {
    type V = DriverView<W>;

    closed spec fn view(&self) -> DriverView<W> {
        DriverView { shared: self.shared@, unparker: self.unparker@ }
    }
}

impl<W> Driver<W> {
    /// A driver that is running, without records.
    pub fn new() -> (d: Self)
        ensures
            d@.shared.status == Status::Running,
            d@.shared.records == Map::<u64, crate::operation::header::HeaderView<W>>::empty(),
            d@.shared.backpressure.waiters.len() == 0,
            d@.shared.backpressure.fired.len() == 0,
            d@.shared.backpressure.issued == 0,
            d@.shared.next_tag == crate::driver::token::RESERVED_TOKENS + 1,
            !d@.shared.check_rings,
            d@.unparker == (ParkState { parked: false, woken: false }),
    {
        Driver { shared: Shared::new(), unparker: Unparker::new() }
    }

    /// Returns the state through which requests are submitted to the
    /// driver.
    pub fn handle(&mut self) -> (s: &mut Shared<W>)
        ensures
            s@ == old(self)@.shared,
            final(self)@ == (DriverView { shared: final(s)@, ..old(self)@ }),
    {
        &mut self.shared
    }

    /// The unparker of the driver.
    pub fn unparker(&mut self) -> (u: &mut Unparker)
        ensures
            u@ == old(self)@.unparker,
            final(self)@ == (DriverView { unparker: final(u)@, ..old(self)@ }),
    {
        &mut self.unparker
    }

    /// The status of the driver.
    pub fn status(&self) -> (s: Status)
        ensures
            s == self@.shared.status,
    {
        self.shared.status()
    }

    /// Whether the executor should stop running tasks and park.
    pub fn needs_park(&self, sq_full: bool, cq_full: bool) -> (r: bool)
        ensures
            r == self@.shared.needs_park(sq_full, cq_full),
    {
        self.shared.needs_park(sq_full, cq_full)
    }

    /// Works on one completion.
    pub fn dispatch(&mut self, effects: &mut Effects<W>, c: Completion)
        ensures
            final(self)@ == old(self)@.dispatch(old(effects)@, c).driver,
            final(effects)@ == old(self)@.dispatch(old(effects)@, c).effects,
    {
        match classify(c.user_data) {
            Token::Drain => {
                let mut woken = self.shared.set_status(Status::Shutdown);
                effects.wake.append(&mut woken);
            },
            Token::UnparkerWake => {
                self.unparker.reset();
            },
            Token::Record => {
                let delivery = self.shared.deliver(c.user_data, c.result, c.flags);
                match delivery.wake {
                    Some(w) => {
                        effects.wake.push(w);
                    },
                    None => {},
                }
                if delivery.cleanup {
                    effects.cleanup.push((c.user_data, CQEResult::new(c.result, c.flags)));
                }
                if delivery.freed {
                    effects.freed.push(c.user_data);
                }
            },
            _ => {},
        }
    }

    /// Works on the completions that were copied out of the completion
    /// queue, in their order. Returns their number.
    pub fn drain(&mut self, effects: &mut Effects<W>, entries: &Vec<Completion>) -> (n: usize)
        ensures
            final(self)@ == old(self)@.drain(old(effects)@, entries@).driver,
            final(effects)@ == old(self)@.drain(old(effects)@, entries@).effects,
            n == entries@.len(),
    {
        let ghost d0 = self@;
        let ghost e0 = effects@;
        let mut i: usize = 0;
        while i < entries.len()
            invariant
                i <= entries.len(),
                self@ == d0.drain(e0, entries@.take(i as int)).driver,
                effects@ == d0.drain(e0, entries@.take(i as int)).effects,
            decreases entries.len() - i,
        {
            proof {
                assert(entries@.take(i + 1).drop_last() =~= entries@.take(i as int));
                assert(entries@.take(i + 1).last() == entries@[i as int]);
            }
            self.dispatch(effects, entries[i]);
            i = i + 1;
        }
        proof {
            assert(entries@.take(i as int) =~= entries@);
        }
        i
    }
}

} // verus!

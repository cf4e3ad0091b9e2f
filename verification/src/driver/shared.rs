//! What the driver and its handles share: the status, the observers that
//! wait for room in the submission queue, and the operation records.

use vstd::prelude::*;
use crate::driver::status::Status;
use crate::driver::token::RESERVED_TOKENS;
use crate::notify::{Notify, NotifyView};
use crate::operation::cqe::{CQEResult, CQE_F_MORE};
use crate::operation::header::{Header, HeaderView};
use crate::table::Table;

verus! {

/// What delivering a completion to a record did.
pub struct Delivery<W> {
    /// The wake handle of the caller that waits for the completion, to be
    /// woken.
    pub wake: Option<W>,
    /// The caller has given the operation up: the completion was not kept,
    /// and is to be handed to the cleanup of the operation.
    pub cleanup: bool,
    /// The record was freed: its payload may be dropped.
    pub freed: bool,
}

/// What polling an operation gave.
#[derive(Debug, PartialEq, Eq, Clone, Copy)]
pub enum OpPoll {
    /// The oldest completion that was not consumed yet.
    Ready(CQEResult),
    /// No completion is there, and none will come.
    Finished,
    /// No completion is there yet. The wake handle was left in the record.
    Pending,
}

/// What giving an operation up asks of the caller.
pub struct Released {
    /// The request is still with the kernel: it is to be cancelled. The
    /// record stays until its last completion arrives.
    pub cancel: bool,
    /// The record was freed: its payload may be dropped.
    pub freed: bool,
    /// The completions that were delivered and not consumed, oldest first.
    /// They are to be handed to the cleanup of the operation.
    pub unconsumed: Vec<CQEResult>,
}

/// The header after a completion was delivered to it.
///
/// The completion is kept if the caller still holds the operation. The
/// completion that announces no more sets the complete flag and gives up
/// the reference of the kernel. The wake handle is taken in any case.
pub open spec fn delivered<W>(h: HeaderView<W>, result: i32, flags: u32) -> HeaderView<W> {
    let last = flags & CQE_F_MORE == 0;
    HeaderView {
        refcount: if last && h.refcount > 0 {
            (h.refcount - 1) as usize
        } else {
            h.refcount
        },
        waker: None,
        completions: if h.refcount > 1 {
            h.completions.push((result, flags))
        } else {
            h.completions
        },
        complete: h.complete || last,
        ..h
    }
}

/// The header after the caller gave the operation up.
pub open spec fn abandoned<W>(h: HeaderView<W>) -> HeaderView<W> {
    HeaderView {
        refcount: if h.refcount > 0 {
            (h.refcount - 1) as usize
        } else {
            h.refcount
        },
        waker: None,
        completions: Seq::empty(),
        ..h
    }
}

/// The completions of a header as results.
pub open spec fn results(completions: Seq<(i32, u32)>) -> Seq<CQEResult> {
    completions.map_values(|c: (i32, u32)| CQEResult::new(c.0, c.1))
}

/// The mathematical model of the shared state.
pub struct SharedView<W> {
    /// The status of the driver.
    pub status: Status,
    /// The observers that wait for room in the submission queue.
    pub backpressure: NotifyView<W>,
    /// The operation records, each under its tag.
    pub records: Map<u64, HeaderView<W>>,
    /// The tag of the next record.
    pub next_tag: nat,
    /// Whether `needs_park` also looks at the queues of the ring.
    pub check_rings: bool,
}

impl<W> SharedView<W> {
    /// The status changes. A change of status notifies every observer that
    /// waits for room in the submission queue.
    pub open spec fn set_status(self, status: Status) -> Self {
        SharedView {
            status,
            backpressure: if status != self.status {
                self.backpressure.notify(usize::MAX as nat)
            } else {
                self.backpressure
            },
            ..self
        }
    }

    /// The wake handles that a change of status hands out.
    pub open spec fn set_status_wakers(self, status: Status) -> Seq<W> {
        if status != self.status {
            self.backpressure.notified_wakers(usize::MAX as nat)
        } else {
            Seq::empty()
        }
    }

    /// Whether the executor should park: there is an observer that waits for
    /// room in the submission queue or, if the driver was told to look at
    /// the ring, one of its queues is full.
    pub open spec fn needs_park(self, sq_full: bool, cq_full: bool) -> bool {
        self.backpressure.waiters.len() > 0 || (self.check_rings && (sq_full || cq_full))
    }

    /// Whether the kernel owns the record `tag`.
    pub open spec fn in_flight(self, tag: u64) -> bool {
        self.records.contains_key(tag) && self.records[tag].kernel_owned()
    }

    /// A record is made for a new operation.
    pub open spec fn allocate(self) -> Self {
        SharedView {
            records: self.records.insert(
                self.next_tag as u64,
                HeaderView {
                    refcount: 1,
                    waker: None,
                    completions: Seq::empty(),
                    complete: false,
                    submitted: false,
                },
            ),
            next_tag: self.next_tag + 1,
            ..self
        }
    }

    /// The request of record `tag` is in the submission queue: the kernel
    /// refers to the record from now on.
    pub open spec fn submitted(self, tag: u64) -> Self {
        if self.records.contains_key(tag) && 0 < self.records[tag].refcount < usize::MAX {
            SharedView {
                records: self.records.insert(
                    tag,
                    HeaderView {
                        refcount: (self.records[tag].refcount + 1) as usize,
                        submitted: true,
                        ..self.records[tag]
                    },
                ),
                ..self
            }
        } else {
            self
        }
    }

    /// A completion is delivered to record `tag`. A record without
    /// references is freed.
    pub open spec fn deliver(self, tag: u64, result: i32, flags: u32) -> Self {
        if self.records.contains_key(tag) {
            let h = delivered(self.records[tag], result, flags);
            if h.refcount == 0 {
                SharedView { records: self.records.remove(tag), ..self }
            } else {
                SharedView { records: self.records.insert(tag, h), ..self }
            }
        } else {
            self
        }
    }

    /// The operation of record `tag` is polled with `waker`.
    pub open spec fn poll(self, tag: u64, waker: W) -> Self {
        if self.records.contains_key(tag) {
            let h = self.records[tag];
            if h.completions.len() > 0 {
                SharedView {
                    records: self.records.insert(
                        tag,
                        HeaderView { completions: h.completions.remove(0), ..h },
                    ),
                    ..self
                }
            } else if h.complete {
                self
            } else {
                SharedView {
                    records: self.records.insert(tag, HeaderView { waker: Some(waker), ..h }),
                    ..self
                }
            }
        } else {
            self
        }
    }

    /// What polling the operation of record `tag` gives.
    pub open spec fn poll_result(self, tag: u64) -> OpPoll {
        if self.records.contains_key(tag) {
            let h = self.records[tag];
            if h.completions.len() > 0 {
                OpPoll::Ready(CQEResult::new(h.completions[0].0, h.completions[0].1))
            } else if h.complete {
                OpPoll::Finished
            } else {
                OpPoll::Pending
            }
        } else {
            OpPoll::Finished
        }
    }

    /// The caller gives the operation of record `tag` up. A record without
    /// references is freed.
    pub open spec fn release(self, tag: u64) -> Self {
        if self.records.contains_key(tag) {
            let h = abandoned(self.records[tag]);
            if h.refcount == 0 {
                SharedView { records: self.records.remove(tag), ..self }
            } else {
                SharedView { records: self.records.insert(tag, h), ..self }
            }
        } else {
            self
        }
    }
}

/// The state that the driver shares with its handles.
pub struct Shared<W> {
    status: Status,
    backpressure: Notify<W>,
    ops: Table<Header<W>>,
    next_tag: u64,
    check_rings: bool,
}

impl<W> View for Shared<W> {
    type V = SharedView<W>;

    closed spec fn view(&self) -> SharedView<W> {
        SharedView {
            status: self.status,
            backpressure: self.backpressure@,
            records: self.ops@.map_values(|h: Header<W>| h@),
            next_tag: self.next_tag as nat,
            check_rings: self.check_rings,
        }
    }
}

impl<W> Shared<W> {
    /// The shared state of a driver that is running, without records and
    /// without observers. The first tag is the first one that is not kept
    /// for the driver.
    pub fn new() -> (s: Self)
        ensures
            s@.status == Status::Running,
            s@.backpressure.waiters.len() == 0,
            s@.backpressure.fired.len() == 0,
            s@.backpressure.issued == 0,
            s@.records == Map::<u64, HeaderView<W>>::empty(),
            s@.next_tag == RESERVED_TOKENS + 1,
            !s@.check_rings,
    {
        let s = Shared {
            status: Status::Running,
            backpressure: Notify::new(),
            ops: Table::new(),
            next_tag: RESERVED_TOKENS + 1,
            check_rings: false,
        };
        proof {
            assert(s@.records =~= Map::<u64, HeaderView<W>>::empty());
        }
        s
    }

    /// Gets the current status of the driver.
    pub fn status(&self) -> (s: Status)
        ensures
            s == self@.status,
    {
        self.status
    }

    /// Sets the status of the driver. On a change of status all observers
    /// that wait for room in the submission queue are notified; their wake
    /// handles are returned.
    pub fn set_status(&mut self, status: Status) -> (woken: Vec<W>)
        ensures
            final(self)@ == old(self)@.set_status(status),
            woken@ == old(self)@.set_status_wakers(status),
    {
        let woken = if status != self.status {
            self.backpressure.notify(usize::MAX)
        } else {
            Vec::new()
        };
        self.status = status;
        woken
    }

    /// Tells `needs_park` whether to look at the queues of the ring as
    /// well. This costs time on each poll, and may pay off.
    pub fn set_check_rings(&mut self, check_rings: bool)
        ensures
            final(self)@ == (SharedView { check_rings, ..old(self)@ }),
    {
        self.check_rings = check_rings;
    }

    /// Whether the executor should stop running tasks and park. `sq_full`
    /// and `cq_full` say whether the submission queue and the completion
    /// queue of the ring are full.
    pub fn needs_park(&self, sq_full: bool, cq_full: bool) -> (r: bool)
        ensures
            r == self@.needs_park(sq_full, cq_full),
    {
        if self.backpressure.waiters() > 0 {
            return true;
        }
        if self.check_rings {
            sq_full || cq_full
        } else {
            false
        }
    }

    /// The observers that wait for room in the submission queue.
    pub fn backpressure(&mut self) -> (n: &mut Notify<W>)
        ensures
            n@ == old(self)@.backpressure,
            final(self)@ == (SharedView { backpressure: final(n)@, ..old(self)@ }),
    {
        &mut self.backpressure
    }

    /// The number of observers that wait for room in the submission queue.
    pub fn waiters(&self) -> (n: usize)
        ensures
            n == self@.backpressure.waiters.len(),
    {
        self.backpressure.waiters()
    }

    /// The tag of the next record.
    pub fn next_tag(&self) -> (t: u64)
        ensures
            t == self@.next_tag,
    {
        self.next_tag
    }

    /// The number of records.
    pub fn records(&self) -> (n: usize)
        ensures
            n == self@.records.len(),
    {
        proof {
            assert(self@.records.dom() =~= self.ops@.dom());
        }
        self.ops.len()
    }

    /// Whether the kernel owns the record `tag`: its request was submitted,
    /// and its last completion has not been delivered.
    pub fn in_flight(&self, tag: u64) -> (r: bool)
        ensures
            r == self@.in_flight(tag),
    {
        match self.ops.get(tag) {
            Some(header) => header.is_submitted() && !header.is_complete(),
            None => false,
        }
    }

    /// Whether a record is kept under `tag`.
    pub fn has_record(&self, tag: u64) -> (r: bool)
        ensures
            r == self@.records.contains_key(tag),
    {
        self.ops.contains(tag)
    }

    /// Makes the record of a new operation, with the caller as its only
    /// reference, and returns its tag.
    pub fn allocate(&mut self) -> (tag: u64)
        requires
            old(self)@.next_tag < u64::MAX,
        ensures
            final(self)@ == old(self)@.allocate(),
            tag == old(self)@.next_tag,
    {
        let ghost before = self@;
        let tag: u64 = self.next_tag;
        self.next_tag = self.next_tag + 1;
        self.ops.put(tag, Header::new());
        proof {
            assert(self@.records =~= before.allocate().records);
        }
        tag
    }

    /// Notes that the request of record `tag` is in the submission queue:
    /// the kernel holds a reference to the record from now on.
    pub fn submitted(&mut self, tag: u64)
        ensures
            final(self)@ == old(self)@.submitted(tag),
    {
        let ghost before = self@;
        match self.ops.take(tag) {
            Some(mut header) => {
                if 0 < header.refcount() && header.refcount() < usize::MAX {
                    header.inc_refcount();
                    header.set_submitted();
                }
                self.ops.put(tag, header);
                proof {
                    assert(self@.records =~= before.submitted(tag).records);
                }
            },
            None => {
                proof {
                    assert(self@.records =~= before.records);
                }
            },
        }
    }

    /// Delivers a completion to the record `tag`.
    ///
    /// The completion is appended to the completion list of the record,
    /// unless the caller has given the operation up: in that case the
    /// completion is for the cleanup of the operation. A completion that
    /// announces no more sets the complete flag and gives up the reference
    /// of the kernel. The wake handle of the record is taken and returned.
    pub fn deliver(&mut self, tag: u64, result: i32, flags: u32) -> (d: Delivery<W>)
        ensures
            final(self)@ == old(self)@.deliver(tag, result, flags),
            d.wake == (if old(self)@.records.contains_key(tag) {
                old(self)@.records[tag].waker
            } else {
                None
            }),
            d.cleanup == (old(self)@.records.contains_key(tag) && old(self)@.records[tag].refcount
                <= 1),
            d.freed == (old(self)@.records.contains_key(tag) && !final(self)@.records.contains_key(tag)),
    {
        let ghost before = self@;
        match self.ops.take(tag) {
            Some(mut header) => {
                let cleanup = header.refcount() <= 1;
                if !cleanup {
                    header.push_completion(result, flags);
                }
                let mut freed = false;
                if !io_uring::cqueue::more(flags) {
                    header.set_complete();
                    if header.refcount() > 0 {
                        let _ = header.dec_refcount();
                    }
                }
                let wake = header.take_waker();
                proof {
                    assert(header@ == delivered(before.records[tag], result, flags));
                }
                if header.refcount() == 0 {
                    freed = true;
                } else {
                    self.ops.put(tag, header);
                }
                proof {
                    assert(self@.records =~= before.deliver(tag, result, flags).records);
                }
                Delivery { wake, cleanup, freed }
            },
            None => {
                proof {
                    assert(self@.records =~= before.records);
                }
                Delivery { wake: None, cleanup: false, freed: false }
            },
        }
    }

    /// Polls the operation of record `tag`: takes the oldest completion
    /// that was not consumed, if there is one. If none is there and more
    /// may come, the wake handle is left in the record, in place of an
    /// earlier one.
    pub fn poll(&mut self, tag: u64, waker: W) -> (r: OpPoll)
        ensures
            final(self)@ == old(self)@.poll(tag, waker),
            r == old(self)@.poll_result(tag),
    {
        let ghost before = self@;
        match self.ops.take(tag) {
            Some(mut header) => {
                let r = match header.pop_completion() {
                    Some(c) => OpPoll::Ready(c),
                    None => {
                        if header.is_complete() {
                            OpPoll::Finished
                        } else {
                            header.set_waker(waker);
                            OpPoll::Pending
                        }
                    },
                };
                self.ops.put(tag, header);
                proof {
                    assert(self@.records =~= before.poll(tag, waker).records);
                }
                r
            },
            None => {
                proof {
                    assert(self@.records =~= before.records);
                }
                OpPoll::Finished
            },
        }
    }

    /// The caller gives the operation of record `tag` up.
    ///
    /// The record stays as long as the kernel refers to it, and is freed
    /// otherwise. A request whose last completion has not arrived is to be
    /// cancelled.
    pub fn release(&mut self, tag: u64) -> (r: Released)
        ensures
            final(self)@ == old(self)@.release(tag),
            r.freed == (old(self)@.records.contains_key(tag) && !final(self)@.records.contains_key(tag)),
            r.cancel == (final(self)@.records.contains_key(tag) && !final(self)@.records[tag].complete),
            r.unconsumed@ == (if old(self)@.records.contains_key(tag) {
                results(old(self)@.records[tag].completions)
            } else {
                Seq::empty()
            }),
    {
        let ghost before = self@;
        match self.ops.take(tag) {
            Some(mut header) => {
                let ghost h0 = header@;
                let mut unconsumed: Vec<CQEResult> = Vec::new();
                proof {
                    assert(h0.completions.skip(0) =~= h0.completions);
                }
                while header.completions() > 0
                    invariant
                        header@ == (HeaderView {
                            completions: h0.completions.skip(unconsumed@.len() as int),
                            ..h0
                        }),
                        unconsumed@.len() <= h0.completions.len(),
                        unconsumed@ == results(h0.completions.take(unconsumed@.len() as int)),
                    decreases header@.completions.len(),
                {
                    let ghost n = unconsumed@.len() as int;
                    let c = header.pop_completion().unwrap();
                    unconsumed.push(c);
                    proof {
                        assert(h0.completions.skip(n)[0] == h0.completions[n]);
                        assert(h0.completions.skip(n).remove(0) =~= h0.completions.skip(n + 1));
                        assert(results(h0.completions.take(n)).push(c) =~= results(
                            h0.completions.take(n + 1),
                        ));
                    }
                }
                proof {
                    assert(h0.completions.take(unconsumed@.len() as int) =~= h0.completions);
                    assert(header@.completions =~= Seq::<(i32, u32)>::empty());
                }
                let _ = header.take_waker();
                if header.refcount() > 0 {
                    let _ = header.dec_refcount();
                }
                proof {
                    assert(header@ == abandoned(h0));
                }
                if header.refcount() == 0 {
                    proof {
                        assert(self@.records =~= before.release(tag).records);
                    }
                    Released { cancel: false, freed: true, unconsumed }
                } else {
                    let cancel = !header.is_complete();
                    self.ops.put(tag, header);
                    proof {
                        assert(self@.records =~= before.release(tag).records);
                    }
                    Released { cancel, freed: false, unconsumed }
                }
            },
            None => {
                proof {
                    assert(self@.records =~= before.records);
                }
                Released { cancel: false, freed: false, unconsumed: Vec::new() }
            },
        }
    }
}

} // verus!

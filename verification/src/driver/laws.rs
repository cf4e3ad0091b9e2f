//! What holds of the driver and of the operation records in every state.

use vstd::prelude::*;
use crate::driver::push::{push_step, Waiting};
use crate::driver::reactor::{DriverView, EffectsView};
use crate::driver::procedure::{ParkPhase, ShutdownPhase};
use crate::driver::ring::{Next, ResponseView};
use crate::driver::shared::SharedView;
use crate::driver::status::Status;
use crate::driver::token::{classify, Token, DRAIN_TOKEN, RESERVED_TOKENS};
use crate::operation::cqe::{Completion, CQE_F_MORE};

verus! {

/// The record of an operation outlives the caller that gives the operation
/// up while its request is with the kernel: the record, and with it the
/// payload of the operation, stays through every completion that announces
/// more, and is freed by the completion that does not.
pub proof fn law_record_outlives_submitter<W>(
    s: SharedView<W>,
    tag: u64,
    result: i32,
    flags: u32,
)
    requires
        s.records.contains_key(tag),
        s.records[tag].refcount == 2,
    ensures
        s.release(tag).records.contains_key(tag),
        s.release(tag).records[tag].refcount == 1,
        flags & CQE_F_MORE != 0 ==> s.release(tag).deliver(tag, result, flags).records.contains_key(
            tag,
        ) && s.release(tag).deliver(tag, result, flags).records[tag].refcount == 1,
        flags & CQE_F_MORE == 0 ==> !s.release(tag).deliver(
            tag,
            result,
            flags,
        ).records.contains_key(tag),
{
}

/// An operation that its caller keeps gets every completion, in the order
/// of their arrival: a completion that is delivered is appended to the
/// completions that wait in the record.
pub proof fn law_completions_in_order<W>(s: SharedView<W>, tag: u64, result: i32, flags: u32)
    requires
        s.records.contains_key(tag),
        s.records[tag].refcount >= 2,
    ensures
        s.deliver(tag, result, flags).records.contains_key(tag),
        s.deliver(tag, result, flags).records[tag].completions == s.records[tag].completions.push(
            (result, flags),
        ),
        s.deliver(tag, result, flags).records[tag].complete == (s.records[tag].complete || flags
            & CQE_F_MORE == 0),
{
}

/// Working on completions never moves the status of the driver back, and
/// leaves a driver that has shut down as it is.
pub proof fn law_drain_status<W>(v: DriverView<W>, e: EffectsView<W>, entries: Seq<Completion>)
    ensures
        v.drain(e, entries).driver.shared.status.rank() >= v.shared.status.rank(),
        v.drain(e, entries).driver.shared.status == v.shared.status || v.drain(
            e,
            entries,
        ).driver.shared.status == Status::Shutdown,
    decreases entries.len(),
{
    if entries.len() > 0 {
        law_drain_status(v, e, entries.drop_last());
    }
}

/// The status of the driver moves one way: no step of a park or of a
/// shutdown moves it back.
pub proof fn law_status_one_way<W>(
    v: DriverView<W>,
    e: EffectsView<W>,
    park: ParkPhase,
    shutdown: ShutdownPhase,
    response: ResponseView,
)
    ensures
        v.park_resume(e, park, response).driver.shared.status.rank() >= v.shared.status.rank(),
        v.shutdown_round(e).driver.shared.status == v.shared.status,
        v.shutdown_resume(e, shutdown, response).driver.shared.status.rank()
            >= v.shared.status.rank(),
{
    match response {
        ResponseView::Reaped(entries, more) => {
            law_drain_status(v, e, entries);
        },
        _ => {},
    }
}

/// A shutdown that is finished leaves the driver shut down, and a driver
/// that has shut down takes no request any more: every push is refused, so
/// that no record comes into the hands of the kernel.
pub proof fn law_shutdown_is_final<W>(
    v: DriverView<W>,
    e: EffectsView<W>,
    phase: ShutdownPhase,
    response: ResponseView,
    push: Option<Waiting>,
    sq_full: bool,
    waker: W,
)
    ensures
        v.shutdown_resume(e, phase, response).next == Next::Finished ==> v.shutdown_resume(
            e,
            phase,
            response,
        ).driver.shared.status == Status::Shutdown,
        v.shutdown_round(e).next == Next::Finished <==> v.shared.status == Status::Shutdown,
        v.shared.status != Status::Running ==> push_step(v.shared, push, sq_full, waker).result
            is ShuttingDown && push_step(v.shared, push, sq_full, waker).shared == v.shared,
{
}

/// The kernel gives a record up with the last completion of its request,
/// and comes to own a record by a submission only: a completion that does
/// not announce more ends the ownership of the kernel, and no completion,
/// no poll and no giving up of an operation begins one.
pub proof fn law_kernel_ownership<W>(
    s: SharedView<W>,
    tag: u64,
    other: u64,
    result: i32,
    flags: u32,
    waker: W,
    status: Status,
)
    ensures
        flags & CQE_F_MORE == 0 ==> !s.deliver(tag, result, flags).in_flight(tag),
        s.deliver(tag, result, flags).in_flight(other) ==> s.in_flight(other),
        s.poll(tag, waker).in_flight(other) ==> s.in_flight(other),
        s.release(tag).in_flight(other) ==> s.in_flight(other),
        s.set_status(status).in_flight(other) == s.in_flight(other),
        s.next_tag < u64::MAX && !s.records.contains_key(s.next_tag as u64) ==> (
        s.allocate().in_flight(other) ==> s.in_flight(other)),
{
}

/// Working on completions ends the ownership of the kernel and begins
/// none.
pub proof fn lemma_drain_ownership<W>(
    v: DriverView<W>,
    e: EffectsView<W>,
    entries: Seq<Completion>,
    tag: u64,
)
    ensures
        v.drain(e, entries).driver.shared.in_flight(tag) ==> v.shared.in_flight(tag),
        (exists|i: int|
            0 <= i < entries.len() && (#[trigger] entries[i]).user_data == tag && entries[i].flags
                & CQE_F_MORE == 0) && tag > RESERVED_TOKENS ==> !v.drain(
            e,
            entries,
        ).driver.shared.in_flight(tag),
    decreases entries.len(),
{
    if entries.len() > 0 {
        let front = entries.drop_last();
        let last = entries.last();
        lemma_drain_ownership(v, e, front, tag);
        let before = v.drain(e, front);
        law_kernel_ownership(
            before.driver.shared,
            last.user_data,
            tag,
            last.result,
            last.flags,
            arbitrary(),
            Status::Shutdown,
        );
        if exists|i: int|
            0 <= i < entries.len() && (#[trigger] entries[i]).user_data == tag && entries[i].flags
                & CQE_F_MORE == 0 {
            let i = choose|i: int|
                0 <= i < entries.len() && (#[trigger] entries[i]).user_data == tag
                    && entries[i].flags & CQE_F_MORE == 0;
            if i < front.len() {
                assert(front[i] == entries[i]);
            } else {
                assert(last == entries[i]);
            }
        }
    }
}

/// When the driver has reaped the last completion of every request that
/// was with the kernel, no record is owned by the kernel any more. That the
/// kernel posts those completions before the end of a drain is its part;
/// that a driver which has shut down submits nothing further is
/// [`law_shutdown_is_final`].
pub proof fn law_no_record_with_the_kernel<W>(
    v: DriverView<W>,
    e: EffectsView<W>,
    entries: Seq<Completion>,
)
    requires
        forall|tag: u64| #[trigger]
            v.shared.in_flight(tag) ==> tag > RESERVED_TOKENS && exists|i: int|
                0 <= i < entries.len() && (#[trigger] entries[i]).user_data == tag
                    && entries[i].flags & CQE_F_MORE == 0,
    ensures
        forall|tag: u64| !(#[trigger] v.drain(e, entries).driver.shared.in_flight(tag)),
{
    assert forall|tag: u64| !(#[trigger] v.drain(e, entries).driver.shared.in_flight(tag)) by {
        lemma_drain_ownership(v, e, entries, tag);
    }
}

/// Once the end of a drain was among the completions that were worked on,
/// the driver has shut down.
proof fn lemma_drain_ends<W>(v: DriverView<W>, e: EffectsView<W>, entries: Seq<Completion>)
    requires
        exists|i: int| 0 <= i < entries.len() && (#[trigger] entries[i]).user_data == DRAIN_TOKEN,
    ensures
        v.drain(e, entries).driver.shared.status == Status::Shutdown,
    decreases entries.len(),
{
    let i = choose|i: int| 0 <= i < entries.len() && (#[trigger] entries[i]).user_data == DRAIN_TOKEN;
    let front = entries.drop_last();
    if i < front.len() {
        assert(front[i] == entries[i]);
        lemma_drain_ends(v, e, front);
    }
    law_drain_status(v, e, front);
}

/// The park of a shutdown that reaps the end of the drain, and with it the
/// last completion of every request that was with the kernel, leaves the
/// driver shut down and no record with the kernel.
pub proof fn law_shutdown_reaps_everything<W>(
    v: DriverView<W>,
    e: EffectsView<W>,
    mode: crate::executor::park::ParkMode,
    total: usize,
    busy: bool,
    entries: Seq<Completion>,
    more: bool,
)
    requires
        exists|i: int| 0 <= i < entries.len() && (#[trigger] entries[i]).user_data == DRAIN_TOKEN,
        forall|tag: u64| #[trigger]
            v.shared.in_flight(tag) ==> tag > RESERVED_TOKENS && exists|i: int|
                0 <= i < entries.len() && (#[trigger] entries[i]).user_data == tag
                    && entries[i].flags & CQE_F_MORE == 0,
    ensures
        ({
            let step = v.shutdown_resume(
                e,
                ShutdownPhase::Parking(ParkPhase::Reaping { mode, total, busy }),
                ResponseView::Reaped(entries, more),
            );
            &&& step.driver.shared.status == Status::Shutdown
            &&& forall|tag: u64| !(#[trigger] step.driver.shared.in_flight(tag))
        }),
{
    lemma_drain_ends(v, e, entries);
    law_no_record_with_the_kernel(v, e, entries);
}

/// The invariant of the tags: every record is kept under a tag that was
/// issued, and no tag that is kept for the driver was ever issued.
pub open spec fn tags_wf<W>(s: SharedView<W>) -> bool {
    &&& s.next_tag > RESERVED_TOKENS
    &&& s.next_tag <= u64::MAX
    &&& forall|tag: u64| #[trigger]
        s.records.contains_key(tag) ==> RESERVED_TOKENS < tag && tag < s.next_tag
}

/// The tag of a record is never one of the tags that are kept for the
/// driver: a new record gets a tag that stands for a record, which no other
/// record has, and every operation on the records keeps it so.
pub proof fn law_tags_are_records<W>(
    s: SharedView<W>,
    tag: u64,
    result: i32,
    flags: u32,
    waker: W,
    status: Status,
)
    requires
        tags_wf(s),
    ensures
        s.next_tag < u64::MAX ==> {
            &&& classify(s.next_tag as u64) == Token::Record
            &&& !s.records.contains_key(s.next_tag as u64)
            &&& s.allocate().records.contains_key(s.next_tag as u64)
            &&& tags_wf(s.allocate())
        },
        s.records.contains_key(tag) ==> classify(tag) == Token::Record,
        tags_wf(s.submitted(tag)),
        tags_wf(s.deliver(tag, result, flags)),
        tags_wf(s.poll(tag, waker)),
        tags_wf(s.release(tag)),
        tags_wf(s.set_status(status)),
{
    if s.records.contains_key(s.next_tag as u64) {
        assert(false);
    }
}

} // verus!

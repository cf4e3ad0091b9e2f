//! What holds of the task engine in every state that its operations reach.

use vstd::prelude::*;
use crate::keys::{distinct, lemma_without_first};
use crate::task::cell::{JoinError, PollOutcome, RunEntry, TaskCell};
use crate::task::state::State;
use crate::task::queue::TaskQueueView;
use crate::task::set::{acquire, release, release_each, shutdown_each, shutdown_one};

verus! {

/// A running task is not scheduled.
pub open spec fn running_unscheduled<T, W>(cell: TaskCell<T, W>) -> bool {
    cell.state.running ==> !cell.state.scheduled
}

/// A task is never both running and scheduled when a run starts, and no
/// operation but a wake or an abort that arrives while the task is being
/// polled makes it so. Such a wake or abort marks the running task as
/// scheduled: that mark is the runnable which the run owes the ready queue
/// when it ends.
pub proof fn law_running_excludes_scheduled<T, W>(
    cell: TaskCell<T, W>,
    outcome: PollOutcome<T>,
    waker: W,
)
    requires
        cell.wf(),
        running_unscheduled(cell),
    ensures
        running_unscheduled(TaskCell::<T, W>::spec_allocate(3)),
        running_unscheduled(TaskCell::<T, W>::spec_rejected()),
        running_unscheduled(cell.spec_begin_run()),
        cell.run_entry() == RunEntry::Poll ==> cell.spec_begin_run().state.running
            && !cell.spec_begin_run().state.scheduled,
        !cell.spec_finish_run(outcome).state.running || cell.state.complete,
        running_unscheduled(cell.spec_finish_run(outcome)),
        running_unscheduled(cell.spec_poll_join(waker)),
        running_unscheduled(cell.spec_drop_join()),
        running_unscheduled(cell.spec_shutdown()),
        running_unscheduled(cell.spec_inc_ref()),
        running_unscheduled(cell.spec_dec_ref()),
        !cell.state.running ==> running_unscheduled(cell.spec_wake()),
        !cell.state.running ==> running_unscheduled(cell.spec_abort()),
{
}

/// Every operation on a cell keeps its invariant, but for the reference
/// count, which the table of cells answers for.
pub proof fn lemma_cell_wf<T, W>(cell: TaskCell<T, W>, outcome: PollOutcome<T>, waker: W)
    requires
        cell.wf(),
    ensures
        TaskCell::<T, W>::spec_allocate(3).wf(),
        TaskCell::<T, W>::spec_rejected().wf(),
        cell.spec_begin_run().wf(),
        cell.spec_finish_run(outcome).wf(),
        cell.spec_wake().wf(),
        cell.spec_abort().wf(),
        cell.spec_poll_join(waker).wf(),
        cell.spec_drop_join().wf(),
        cell.spec_shutdown().wf(),
        cell.spec_inc_ref().wf(),
        cell.spec_dec_ref().refcount > 0 ==> cell.spec_dec_ref().wf(),
{
}

/// The join handle of a task observes exactly one result, which is fixed
/// when the task finishes: the output of the computation, or that it
/// panicked, or that the task was cancelled. Nothing that happens to a
/// finished task changes the result before the join handle takes it, and
/// once it is taken there is none left.
pub proof fn law_join_observes_one_result<T, W>(
    cell: TaskCell<T, W>,
    value: T,
    outcome: PollOutcome<T>,
    waker: W,
)
    requires
        cell.wf(),
        cell.state.join_interest,
    ensures
        !cell.state.complete ==> {
            &&& cell.spec_finish_run(PollOutcome::Ready(value)).join_result() == Ok::<
                T,
                JoinError,
            >(value)
            &&& cell.spec_finish_run(PollOutcome::Panicked).join_result() == Err::<T, JoinError>(
                JoinError::Panicked,
            )
            &&& cell.spec_shutdown().join_result() == Err::<T, JoinError>(JoinError::Cancelled)
            &&& cell.state.cancelled ==> cell.spec_begin_run().join_result() == Err::<
                T,
                JoinError,
            >(JoinError::Cancelled)
            &&& cell.spec_finish_run(PollOutcome::Ready(value)).state.complete
            &&& cell.spec_finish_run(PollOutcome::Panicked).state.complete
            &&& cell.spec_shutdown().state.complete
            &&& !cell.spec_finish_run(PollOutcome::Pending).state.complete
        },
        cell.state.complete ==> {
            &&& cell.spec_begin_run() == cell
            &&& cell.spec_finish_run(outcome) == cell
            &&& cell.spec_shutdown() == cell
            &&& cell.spec_wake() == cell
            &&& cell.spec_abort().join_result() == cell.join_result()
            &&& cell.spec_abort().state.complete
            &&& cell.spec_inc_ref().join_result() == cell.join_result()
            &&& cell.spec_dec_ref().join_result() == cell.join_result()
            &&& !cell.spec_poll_join(waker).state.join_interest
            &&& cell.spec_poll_join(waker).body is Empty
        },
{
}

/// Every live cell is referred to and keeps its invariant.
pub open spec fn cells_wf<T, W>(cells: Map<u64, TaskCell<T, W>>) -> bool {
    forall|id: u64| cells.contains_key(id) ==> (#[trigger] cells[id]).wf()
}

/// Two cells that differ at most in their reference counts.
pub open spec fn same_task<T, W>(a: TaskCell<T, W>, b: TaskCell<T, W>) -> bool {
    a.state == b.state && a.body == b.body && a.join_waker == b.join_waker
}

/// A cell is freed when its reference count reaches zero and at no other
/// time: giving up a handle frees the cell exactly if it was the last one,
/// and touches no other cell.
pub proof fn law_freed_at_zero<T, W>(cells: Map<u64, TaskCell<T, W>>, id: u64)
    requires
        cells_wf(cells),
    ensures
        cells_wf(release(cells, id)),
        cells.contains_key(id) ==> (release(cells, id).contains_key(id) <==> cells[id].refcount
            != 1),
        release(cells, id).contains_key(id) ==> same_task(release(cells, id)[id], cells[id]),
        forall|other: u64|
            other != id ==> (release(cells, id).contains_key(other) <==> cells.contains_key(other)),
        forall|other: u64|
            other != id && cells.contains_key(other) ==> #[trigger] release(cells, id)[other]
                == cells[other],
{
    let r = release(cells, id);
    assert forall|k: u64| r.contains_key(k) implies (#[trigger] r[k]).wf() by {
        if k != id {
            assert(cells[k].wf());
        } else {
            assert(cells[id].wf());
        }
    }
}

/// Making a handle never frees a cell, and touches no other cell.
pub proof fn lemma_acquire<T, W>(cells: Map<u64, TaskCell<T, W>>, id: u64)
    requires
        cells_wf(cells),
    ensures
        cells_wf(acquire(cells, id)),
        acquire(cells, id).dom() == cells.dom(),
        cells.contains_key(id) ==> same_task(acquire(cells, id)[id], cells[id]),
        forall|other: u64|
            other != id && cells.contains_key(other) ==> #[trigger] acquire(cells, id)[other]
                == cells[other],
{
    let r = acquire(cells, id);
    assert(r.dom() =~= cells.dom());
    assert forall|k: u64| r.contains_key(k) implies (#[trigger] r[k]).wf() by {
        if k != id {
            assert(cells[k].wf());
        } else {
            assert(cells[id].wf());
        }
    }
}

/// The invariant of a task queue: every live cell keeps its invariant, and
/// every task that has not finished is registered with the task set.
pub open spec fn queue_wf<T, W>(v: TaskQueueView<T, W>) -> bool {
    &&& cells_wf(v.set.cells)
    &&& forall|id: u64|
        v.set.cells.contains_key(id) && !(#[trigger] v.set.cells[id]).state.complete
            ==> v.set.list.contains(id)
}

proof fn lemma_put<T, W>(v: TaskQueueView<T, W>, id: u64, cell: TaskCell<T, W>)
    requires
        queue_wf(v),
        cell.wf(),
        !cell.state.complete ==> v.set.list.contains(id),
    ensures
        queue_wf(TaskQueueView { set: v.set.put(id, cell), ..v }),
{
    let w = TaskQueueView { set: v.set.put(id, cell), ..v };
    assert forall|k: u64| w.set.cells.contains_key(k) implies (#[trigger] w.set.cells[k]).wf()
        && (!w.set.cells[k].state.complete ==> w.set.list.contains(k)) by {
        if k != id {
            assert(v.set.cells[k].wf());
        }
    }
}

proof fn lemma_release_queue<T, W>(v: TaskQueueView<T, W>, id: u64)
    requires
        queue_wf(v),
    ensures
        queue_wf(v.release(id)),
        queue_wf(TaskQueueView { set: v.set.release(id), runqueue: v.runqueue.push(id) }),
{
    law_freed_at_zero(v.set.cells, id);
    let w = v.release(id);
    assert forall|k: u64|
        w.set.cells.contains_key(k) && !(#[trigger] w.set.cells[k]).state.complete implies w.set.list.contains(
        k,
    ) by {
        if k != id {
            assert(w.set.cells[k] == v.set.cells[k]);
        } else {
            assert(same_task(w.set.cells[k], v.set.cells[k]));
        }
    }
}

proof fn lemma_acquire_queue<T, W>(v: TaskQueueView<T, W>, id: u64)
    requires
        queue_wf(v),
    ensures
        queue_wf(v.acquire(id)),
        queue_wf(TaskQueueView { set: v.set.acquire(id), runqueue: v.runqueue.push(id) }),
{
    lemma_acquire(v.set.cells, id);
    let w = v.acquire(id);
    assert forall|k: u64|
        w.set.cells.contains_key(k) && !(#[trigger] w.set.cells[k]).state.complete implies w.set.list.contains(
        k,
    ) by {
        assert(v.set.cells.dom().contains(k));
        if k != id {
            assert(w.set.cells[k] == v.set.cells[k]);
        } else {
            assert(same_task(w.set.cells[k], v.set.cells[k]));
        }
    }
}

/// A finished task leaves the set.
proof fn lemma_unbind<T, W>(v: TaskQueueView<T, W>, id: u64)
    requires
        queue_wf(v),
        v.set.cells.contains_key(id) ==> v.set.cells[id].state.complete,
    ensures
        queue_wf(TaskQueueView { set: v.set.remove(id), ..v }),
{
    let w = TaskQueueView { set: v.set.remove(id), ..v };
    if v.set.list.contains(id) {
        law_freed_at_zero(v.set.cells, id);
        lemma_without_first(v.set.list, id);
        assert forall|k: u64|
            w.set.cells.contains_key(k) && !(#[trigger] w.set.cells[k]).state.complete implies w.set.list.contains(
            k,
        ) by {
            if k != id {
                assert(w.set.cells[k] == v.set.cells[k]);
                assert(v.set.list.contains(k));
            } else {
                assert(same_task(w.set.cells[k], v.set.cells[k]));
            }
        }
    }
}

/// Every operation of the task queue keeps its invariant.
pub proof fn law_queue_invariant<T, W>(
    v: TaskQueueView<T, W>,
    id: u64,
    outcome: PollOutcome<T>,
    waker: W,
)
    requires
        queue_wf(v),
    ensures
        queue_wf(v.spawn()),
        queue_wf(v.next()),
        queue_wf(v.begin_run(id)),
        queue_wf(v.finish_run(id, outcome)),
        queue_wf(v.wake(id)),
        queue_wf(v.abort(id)),
        queue_wf(v.poll_join(id, waker)),
        queue_wf(v.drop_join(id)),
        queue_wf(v.acquire(id)),
        queue_wf(v.release(id)),
{
    lemma_release_queue(v, id);
    lemma_acquire_queue(v, id);
    // spawn
    {
        let w = v.spawn();
        let new = v.set.issued as u64;
        lemma_cell_wf(TaskCell::<T, W>::spec_allocate(3), outcome, waker);
        assert forall|k: u64| w.set.cells.contains_key(k) implies (#[trigger] w.set.cells[k]).wf()
            && (!w.set.cells[k].state.complete ==> w.set.list.contains(k)) by {
            if k != new {
                assert(v.set.cells[k].wf());
                if !v.set.cells[k].state.complete {
                    let i = choose|i: int| 0 <= i < v.set.list.len() && v.set.list[i] == k;
                    if !v.set.closed {
                        assert(w.set.list[i] == k);
                    }
                }
            } else {
                if !v.set.closed {
                    assert(w.set.list[v.set.list.len() as int] == new);
                }
            }
        }
    }
    if v.set.cells.contains_key(id) {
        let cell = v.set.cells[id];
        assert(cell.wf());
        lemma_cell_wf(cell, outcome, waker);
        // begin_run
        {
            let c = cell.spec_begin_run();
            let put = TaskQueueView { set: v.set.put(id, c), ..v };
            lemma_put(v, id, c);
            match cell.run_entry() {
                RunEntry::Poll => {},
                RunEntry::Cancel => {
                    lemma_unbind(put, id);
                    lemma_release_queue(TaskQueueView { set: put.set.remove(id), ..put }, id);
                },
                RunEntry::Stale => {
                    lemma_release_queue(put, id);
                },
            }
        }
        // finish_run
        {
            let c = cell.spec_finish_run(outcome);
            let put = TaskQueueView { set: v.set.put(id, c), ..v };
            lemma_put(v, id, c);
            if cell.republishes(outcome) {
                assert(queue_wf(TaskQueueView { set: put.set, runqueue: v.runqueue.push(id) }));
            } else if cell.finishes(outcome) {
                lemma_unbind(put, id);
                lemma_release_queue(TaskQueueView { set: put.set.remove(id), ..put }, id);
            } else {
                lemma_release_queue(put, id);
            }
        }
        // wake and abort
        {
            let put = TaskQueueView { set: v.set.put(id, cell.spec_wake()), ..v };
            lemma_put(v, id, cell.spec_wake());
            lemma_acquire_queue(put, id);
            let put = TaskQueueView { set: v.set.put(id, cell.spec_abort()), ..v };
            lemma_put(v, id, cell.spec_abort());
            lemma_acquire_queue(put, id);
        }
        // the join side
        {
            let put = TaskQueueView { set: v.set.put(id, cell.spec_poll_join(waker)), ..v };
            lemma_put(v, id, cell.spec_poll_join(waker));
            lemma_release_queue(put, id);
            let put = TaskQueueView { set: v.set.put(id, cell.spec_drop_join()), ..v };
            lemma_put(v, id, cell.spec_drop_join());
            lemma_release_queue(put, id);
        }
    }
}

/// Aborting a task twice is the same as aborting it once.
pub proof fn law_abort_idempotent<T, W>(v: TaskQueueView<T, W>, id: u64)
    ensures
        v.abort(id).abort(id) == v.abort(id),
{
    if v.set.cells.contains_key(id) {
        let once = v.abort(id);
        let twice = once.abort(id);
        assert(once.set.cells.contains_key(id));
        assert(!once.set.cells[id].state.needs_runnable());
        assert(once.set.cells[id].spec_abort() == once.set.cells[id]);
        assert(twice.set.cells =~= once.set.cells);
    }
}

proof fn lemma_shutdown_each<T, W>(cells: Map<u64, TaskCell<T, W>>, list: Seq<u64>)
    requires
        cells_wf(cells),
    ensures
        cells_wf(shutdown_each(cells, list)),
        forall|id: u64| #[trigger]
            shutdown_each(cells, list).contains_key(id) ==> cells.contains_key(id) && (
            cells[id].state.complete || list.contains(id) ==> shutdown_each(
                cells,
                list,
            )[id].state.complete),
    decreases list.len(),
{
    if list.len() > 0 {
        let before = shutdown_each(cells, list.drop_last());
        let last = list.last();
        lemma_shutdown_each(cells, list.drop_last());
        let after = shutdown_one(before, last);
        if before.contains_key(last) {
            let shut = before.insert(last, before[last].spec_shutdown());
            assert(before[last].wf());
            assert forall|k: u64| shut.contains_key(k) implies (#[trigger] shut[k]).wf() by {
                if k != last {
                    assert(before[k].wf());
                }
            }
            law_freed_at_zero(shut, last);
        }
        assert forall|id: u64| #[trigger] after.contains_key(id) implies cells.contains_key(id) && (
        cells[id].state.complete || list.contains(id) ==> after[id].state.complete) by {
            assert(before.contains_key(id));
            if id != last {
                if list.contains(id) {
                    let i = choose|i: int| 0 <= i < list.len() && list[i] == id;
                    assert(list.drop_last()[i] == id);
                }
            } else {
                assert(same_task(after[id], before[last].spec_shutdown()));
            }
        }
    }
}

proof fn lemma_release_each<T, W>(cells: Map<u64, TaskCell<T, W>>, ids: Seq<u64>)
    requires
        cells_wf(cells),
    ensures
        cells_wf(release_each(cells, ids)),
        forall|id: u64| #[trigger]
            release_each(cells, ids).contains_key(id) ==> cells.contains_key(id) && same_task(
                release_each(cells, ids)[id],
                cells[id],
            ),
    decreases ids.len(),
{
    if ids.len() > 0 {
        lemma_release_each(cells, ids.drop_last());
        law_freed_at_zero(release_each(cells, ids.drop_last()), ids.last());
    }
}

/// Shutting the queue down leaves no task behind: the queue is closed, the
/// task set and the ready queue are empty, and every cell that is still
/// alive, because a join handle or a wake handle refers to it, belongs to a
/// finished task whose computation is gone. Such a cell is freed with its
/// last handle.
pub proof fn law_shutdown_leaves_no_task<T, W>(v: TaskQueueView<T, W>)
    requires
        queue_wf(v),
    ensures
        queue_wf(v.shutdown()),
        v.shutdown().set.closed,
        v.shutdown().set.list.len() == 0,
        v.shutdown().runqueue.len() == 0,
        forall|id: u64| #[trigger]
            v.shutdown().set.cells.contains_key(id) ==> v.shutdown().set.cells[id].state.complete
                && !(v.shutdown().set.cells[id].body is Future),
{
    let shut = shutdown_each(v.set.cells, v.set.list);
    lemma_shutdown_each(v.set.cells, v.set.list);
    lemma_release_each(shut, v.runqueue);
    let w = v.shutdown();
    assert forall|id: u64| #[trigger] w.set.cells.contains_key(id) implies w.set.cells[id].state.complete
        && !(w.set.cells[id].body is Future) by {
        assert(shut.contains_key(id));
        assert(same_task(w.set.cells[id], shut[id]));
        assert(v.set.cells.contains_key(id));
        if !v.set.cells[id].state.complete {
            assert(v.set.list.contains(id));
        }
        assert(shut[id].state.complete);
        assert(shut[id].wf());
    }
}

/// A task that is spawned after the queue was shut down is cancelled from
/// the start: its join handle reports so the first time it is polled.
pub proof fn law_spawn_after_shutdown<T, W>(v: TaskQueueView<T, W>)
    requires
        v.set.closed,
    ensures
        v.spawn().join_result(v.set.issued as u64) == Some(
            Err::<T, JoinError>(JoinError::Cancelled),
        ),
        v.spawn().runqueue == v.runqueue,
        v.spawn().set.list == v.set.list,
{
}

/// The invariant of the ready queue: it holds each task at most once, only
/// tasks that were spawned, and no task that is being polled. A task in the
/// queue is marked as scheduled.
pub open spec fn queued_once<T, W>(v: TaskQueueView<T, W>) -> bool {
    &&& distinct(v.runqueue)
    &&& v.set.issued <= u64::MAX
    &&& forall|id: u64| #[trigger] v.set.cells.contains_key(id) ==> id < v.set.issued
    &&& forall|id: u64| #[trigger]
        v.runqueue.contains(id) ==> id < v.set.issued && (v.set.cells.contains_key(id)
            ==> v.set.cells[id].state.scheduled && !v.set.cells[id].state.running)
}

/// What an operation on task `id` leaves of the cells: every other cell as
/// it was, and the cell of the task, if it is still alive, in state `st`.
pub open spec fn touched<T, W>(
    a: Map<u64, TaskCell<T, W>>,
    b: Map<u64, TaskCell<T, W>>,
    id: u64,
    st: State,
) -> bool {
    &&& forall|k: u64| k != id && #[trigger] b.contains_key(k) ==> a.contains_key(k) && b[k] == a[k]
    &&& b.contains_key(id) ==> b[id].state == st
}

proof fn lemma_touched<T, W>(
    a: Map<u64, TaskCell<T, W>>,
    b: Map<u64, TaskCell<T, W>>,
    id: u64,
    st: State,
)
    requires
        touched(a, b, id, st),
    ensures
        touched(a, release(b, id), id, st),
        touched(a, acquire(b, id), id, st),
{
}

proof fn lemma_push_once(queue: Seq<u64>, id: u64)
    requires
        distinct(queue),
        !queue.contains(id),
    ensures
        distinct(queue.push(id)),
        forall|k: u64| #[trigger] queue.push(id).contains(k) ==> k == id || queue.contains(k),
{
    let q = queue.push(id);
    assert forall|i: int, j: int| 0 <= i < j < q.len() implies q[i] != q[j] by {
        assert(queue[i] == q[i]);
        assert(queue.contains(q[i]));
        if j < queue.len() {
            assert(queue[j] == q[j]);
        }
    }
    assert forall|k: u64| #[trigger] q.contains(k) implies k == id || queue.contains(k) by {
        let i = choose|i: int| 0 <= i < q.len() && q[i] == k;
        if i < queue.len() {
            assert(queue[i] == k);
        }
    }
}

/// The step of the invariant for an operation on task `id` that leaves the
/// cells as `touched` says and the queue as it was, or with the task at its
/// end.
proof fn lemma_queued_step<T, W>(
    v: TaskQueueView<T, W>,
    w: TaskQueueView<T, W>,
    id: u64,
    st: State,
    pushed: bool,
)
    requires
        queued_once(v),
        touched(v.set.cells, w.set.cells, id, st),
        w.set.cells.contains_key(id) ==> id < v.set.issued,
        w.set.issued == v.set.issued,
        w.runqueue == (if pushed {
            v.runqueue.push(id)
        } else {
            v.runqueue
        }),
        pushed ==> !v.runqueue.contains(id) && id < v.set.issued && st.scheduled && !st.running,
        !pushed && v.runqueue.contains(id) ==> st.scheduled && !st.running,
    ensures
        queued_once(w),
{
    if pushed {
        lemma_push_once(v.runqueue, id);
    }
    assert forall|k: u64| #[trigger] w.set.cells.contains_key(k) implies k < w.set.issued by {
        if k != id {
            assert(v.set.cells.contains_key(k));
        }
    }
    assert forall|k: u64| #[trigger] w.runqueue.contains(k) implies k < w.set.issued && (
    w.set.cells.contains_key(k) ==> w.set.cells[k].state.scheduled
        && !w.set.cells[k].state.running) by {
        if k != id {
            assert(v.runqueue.contains(k));
            if w.set.cells.contains_key(k) {
                assert(v.set.cells.contains_key(k));
            }
        }
    }
}

/// The ready queue holds each task at most once, and never a task that is
/// being polled: every operation of the task queue keeps it so. A run is
/// entered with a runnable that was taken out of the queue, and left by the
/// task that was running; a wake or an abort of a task that is scheduled or
/// running puts nothing into the queue.
pub proof fn law_queue_holds_each_task_once<T, W>(
    v: TaskQueueView<T, W>,
    id: u64,
    outcome: PollOutcome<T>,
    waker: W,
)
    requires
        queued_once(v),
    ensures
        v.set.cells.contains_key(id) && v.set.cells[id].state.running ==> !v.runqueue.contains(id),
        v.set.issued < u64::MAX ==> queued_once(v.spawn()),
        queued_once(v.next()),
        v.runqueue.len() > 0 ==> !v.next().runqueue.contains(v.runqueue[0]),
        !v.runqueue.contains(id) ==> queued_once(v.begin_run(id)),
        (v.set.cells.contains_key(id) ==> v.set.cells[id].state.running
            || v.set.cells[id].state.complete) ==> queued_once(v.finish_run(id, outcome)),
        queued_once(v.wake(id)),
        queued_once(v.abort(id)),
        queued_once(v.poll_join(id, waker)),
        queued_once(v.drop_join(id)),
        queued_once(v.acquire(id)),
        queued_once(v.release(id)),
        queued_once(v.shutdown()),
        !v.runqueue.contains(id) && v.set.cells.contains_key(id) && v.set.cells[id].state.scheduled
            && !v.set.cells[id].state.running ==> queued_once(v.schedule(id)),
{
    let cells = v.set.cells;
    if !v.runqueue.contains(id) && cells.contains_key(id) {
        assert(touched(cells, cells, id, cells[id].state));
        if cells[id].state.scheduled && !cells[id].state.running {
            lemma_queued_step(v, v.schedule(id), id, cells[id].state, true);
        }
    }
    // next
    if v.runqueue.len() > 0 {
        let w = v.next();
        assert forall|k: u64| #[trigger] w.runqueue.contains(k) implies v.runqueue.contains(k) && k
            != v.runqueue[0] by {
            let i = choose|i: int| 0 <= i < w.runqueue.len() && w.runqueue[i] == k;
            assert(v.runqueue[i + 1] == k);
        }
        assert forall|i: int, j: int| 0 <= i < j < w.runqueue.len() implies w.runqueue[i]
            != w.runqueue[j] by {
            assert(w.runqueue[i] == v.runqueue[i + 1]);
            assert(w.runqueue[j] == v.runqueue[j + 1]);
        }
    }
    // spawn
    if v.set.issued < u64::MAX {
        let new = v.set.issued as u64;
        let w = v.spawn();
        if !v.set.closed {
            lemma_push_once(v.runqueue, new);
        }
        assert forall|k: u64| #[trigger] w.set.cells.contains_key(k) implies k
            < w.set.issued by {
            if k != new {
                assert(cells.contains_key(k));
            }
        }
        assert forall|k: u64| #[trigger] w.runqueue.contains(k) implies k < w.set.issued && (
        w.set.cells.contains_key(k) ==> w.set.cells[k].state.scheduled
            && !w.set.cells[k].state.running) by {
            if k != new {
                assert(v.runqueue.contains(k));
                if w.set.cells.contains_key(k) {
                    assert(cells.contains_key(k));
                }
            }
        }
    }
    // shutdown
    assert forall|k: u64| #[trigger] v.shutdown().set.cells.contains_key(k) implies k
        < v.set.issued by {
        lemma_shutdown_keys(cells, v.set.list, v.runqueue, k);
    }
    // the handles
    if cells.contains_key(id) {
        let cell = cells[id];
        let st = cell.state;
        assert(touched(cells, cells, id, st));
        lemma_touched(cells, cells, id, st);
        lemma_queued_step(v, v.acquire(id), id, st, false);
        lemma_queued_step(v, v.release(id), id, st, false);
        // wake and abort
        {
            let put = cells.insert(id, cell.spec_wake());
            assert(touched(cells, put, id, st.wake()));
            lemma_touched(cells, put, id, st.wake());
            lemma_queued_step(v, v.wake(id), id, st.wake(), st.needs_runnable());
            let put = cells.insert(id, cell.spec_abort());
            assert(touched(cells, put, id, st.abort()));
            lemma_touched(cells, put, id, st.abort());
            lemma_queued_step(v, v.abort(id), id, st.abort(), st.needs_runnable());
        }
        // the join side
        {
            let c = cell.spec_poll_join(waker);
            let put = cells.insert(id, c);
            assert(touched(cells, put, id, c.state));
            lemma_touched(cells, put, id, c.state);
            lemma_queued_step(v, v.poll_join(id, waker), id, c.state, false);
            let c = cell.spec_drop_join();
            let put = cells.insert(id, c);
            assert(touched(cells, put, id, c.state));
            lemma_touched(cells, put, id, c.state);
            lemma_queued_step(v, v.drop_join(id), id, c.state, false);
        }
        // a run
        if !v.runqueue.contains(id) {
            let c = cell.spec_begin_run();
            let put = cells.insert(id, c);
            assert(touched(cells, put, id, c.state));
            lemma_touched(cells, put, id, c.state);
            let gone = v.set.put(id, c).remove(id).cells;
            assert(touched(cells, gone, id, c.state));
            lemma_touched(cells, gone, id, c.state);
            lemma_queued_step(v, v.begin_run(id), id, c.state, false);
        }
        if st.running || st.complete {
            let c = cell.spec_finish_run(outcome);
            let put = cells.insert(id, c);
            assert(touched(cells, put, id, c.state));
            lemma_touched(cells, put, id, c.state);
            let gone = v.set.put(id, c).remove(id).cells;
            assert(touched(cells, gone, id, c.state));
            lemma_touched(cells, gone, id, c.state);
            lemma_queued_step(v, v.finish_run(id, outcome), id, c.state, cell.republishes(outcome));
        }
    } else {
        assert(touched(cells, cells, id, State::spawned()));
        lemma_touched(cells, cells, id, State::spawned());
        lemma_queued_step(v, v.acquire(id), id, State::spawned(), false);
        lemma_queued_step(v, v.release(id), id, State::spawned(), false);
    }
}

/// Shutting down frees cells and makes none.
proof fn lemma_shutdown_keys<T, W>(
    cells: Map<u64, TaskCell<T, W>>,
    list: Seq<u64>,
    queue: Seq<u64>,
    k: u64,
)
    requires
        release_each(shutdown_each(cells, list), queue).contains_key(k),
    ensures
        cells.contains_key(k),
    decreases queue.len(), list.len(),
{
    if queue.len() > 0 {
        lemma_shutdown_keys(cells, list, queue.drop_last(), k);
    } else if list.len() > 0 {
        lemma_shutdown_keys(cells, list.drop_last(), queue, k);
    }
}

} // verus!

//! The task set: the owner of the task cells.
//!
//! The set keeps every live cell under the number of its task, and the list
//! of the tasks that are registered with it, oldest first. Shutting the set
//! down cancels every registered task and closes the set for good.

use vstd::prelude::*;
use crate::keys::{remove_first, without_first};
use crate::table::Table;
use crate::task::cell::TaskCell;
use crate::task::handle::{JoinHandle, Runnable};

verus! {

/// The cells after one more handle to task `id` was made.
pub open spec fn acquire<T, W>(cells: Map<u64, TaskCell<T, W>>, id: u64) -> Map<
    u64,
    TaskCell<T, W>,
> {
    if cells.contains_key(id) {
        cells.insert(id, cells[id].spec_inc_ref())
    } else {
        cells
    }
}

/// The cells after a handle to task `id` was given up: the cell is freed
/// when its last reference goes, and only then.
pub open spec fn release<T, W>(cells: Map<u64, TaskCell<T, W>>, id: u64) -> Map<
    u64,
    TaskCell<T, W>,
> {
    if cells.contains_key(id) {
        if cells[id].spec_dec_ref().refcount == 0 {
            cells.remove(id)
        } else {
            cells.insert(id, cells[id].spec_dec_ref())
        }
    } else {
        cells
    }
}

/// The cells after one handle to each task of `ids` was given up, in order.
pub open spec fn release_each<T, W>(cells: Map<u64, TaskCell<T, W>>, ids: Seq<u64>) -> Map<
    u64,
    TaskCell<T, W>,
>
    decreases ids.len(),
{
    if ids.len() == 0 {
        cells
    } else {
        release(release_each(cells, ids.drop_last()), ids.last())
    }
}

/// The cells after the registered task `id` was shut down and the reference
/// of its registration was given up.
pub open spec fn shutdown_one<T, W>(cells: Map<u64, TaskCell<T, W>>, id: u64) -> Map<
    u64,
    TaskCell<T, W>,
> {
    if cells.contains_key(id) {
        release(cells.insert(id, cells[id].spec_shutdown()), id)
    } else {
        cells
    }
}

/// The cells after the registered tasks `list` were shut down, in order.
pub open spec fn shutdown_each<T, W>(cells: Map<u64, TaskCell<T, W>>, list: Seq<u64>) -> Map<
    u64,
    TaskCell<T, W>,
>
    decreases list.len(),
{
    if list.len() == 0 {
        cells
    } else {
        shutdown_one(shutdown_each(cells, list.drop_last()), list.last())
    }
}

/// The wake handle that shutting down task `id` hands out: that of its join
/// side, if the task had not finished and the join side was waiting.
pub open spec fn shutdown_waker<T, W>(cells: Map<u64, TaskCell<T, W>>, id: u64) -> Option<W> {
    if cells.contains_key(id) && !cells[id].state.complete {
        cells[id].join_waker
    } else {
        None
    }
}

/// The wake handles that shutting down the tasks `list` hands out, in order.
pub open spec fn shutdown_wakers<T, W>(cells: Map<u64, TaskCell<T, W>>, list: Seq<u64>) -> Seq<W>
    decreases list.len(),
{
    if list.len() == 0 {
        Seq::empty()
    } else {
        let before = shutdown_wakers(cells, list.drop_last());
        match shutdown_waker(shutdown_each(cells, list.drop_last()), list.last()) {
            Some(w) => before.push(w),
            None => before,
        }
    }
}

/// The mathematical model of a task set.
pub struct TaskSetView<T, W> {
    /// The live cells, each under the number of its task.
    pub cells: Map<u64, TaskCell<T, W>>,
    /// The registered tasks, oldest first.
    pub list: Seq<u64>,
    /// Whether the set was shut down.
    pub closed: bool,
    /// The number of tasks bound so far; also the number of the next task.
    pub issued: nat,
}

impl<T, W> TaskSetView<T, W> {
    /// A task is bound to the set. An open set registers it, with a third
    /// reference for the registration; a closed set refuses the computation
    /// and leaves a cancelled cell for the join handle.
    pub open spec fn bind(self) -> Self {
        let id = self.issued as u64;
        if self.closed {
            TaskSetView {
                cells: self.cells.insert(id, TaskCell::spec_rejected()),
                issued: self.issued + 1,
                ..self
            }
        } else {
            TaskSetView {
                cells: self.cells.insert(id, TaskCell::spec_allocate(3)),
                list: self.list.push(id),
                issued: self.issued + 1,
                ..self
            }
        }
    }

    /// The registration of task `id` ends, and its reference is given up.
    pub open spec fn remove(self, id: u64) -> Self {
        if self.list.contains(id) {
            TaskSetView {
                cells: release(self.cells, id),
                list: without_first(self.list, id),
                ..self
            }
        } else {
            self
        }
    }

    /// The set is shut down.
    pub open spec fn shutdown(self) -> Self {
        TaskSetView {
            cells: shutdown_each(self.cells, self.list),
            list: Seq::empty(),
            closed: true,
            ..self
        }
    }

    /// One more handle to task `id` is made.
    pub open spec fn acquire(self, id: u64) -> Self {
        TaskSetView { cells: acquire(self.cells, id), ..self }
    }

    /// A handle to task `id` is given up.
    pub open spec fn release(self, id: u64) -> Self {
        TaskSetView { cells: release(self.cells, id), ..self }
    }

    /// The cell of task `id` is replaced.
    pub open spec fn put(self, id: u64, cell: TaskCell<T, W>) -> Self {
        TaskSetView { cells: self.cells.insert(id, cell), ..self }
    }
}

/// The set of the tasks that are alive, with their cells.
pub struct TaskSet<T, W> {
    cells: Table<TaskCell<T, W>>,
    list: Vec<u64>,
    closed: bool,
    issued: u64,
}

impl<T, W> View for TaskSet<T, W> {
    type V = TaskSetView<T, W>;

    closed spec fn view(&self) -> TaskSetView<T, W> {
        TaskSetView {
            cells: self.cells@,
            list: self.list@,
            closed: self.closed,
            issued: self.issued as nat,
        }
    }
}

impl<T, W> TaskSet<T, W> {
    /// An open task set without tasks.
    pub fn new() -> (s: Self)
        ensures
            s@.cells == Map::<u64, TaskCell<T, W>>::empty(),
            s@.list == Seq::<u64>::empty(),
            !s@.closed,
            s@.issued == 0,
    {
        TaskSet { cells: Table::new(), list: Vec::new(), closed: false, issued: 0 }
    }

    /// Whether the set was shut down.
    pub fn is_closed(&self) -> (r: bool)
        ensures
            r == self@.closed,
    {
        self.closed
    }

    /// The number of registered tasks.
    pub fn len(&self) -> (n: usize)
        ensures
            n == self@.list.len(),
    {
        self.list.len()
    }

    /// The number of tasks bound so far.
    pub fn issued(&self) -> (n: u64)
        ensures
            n == self@.issued,
    {
        self.issued
    }

    /// Binds a new task to the set, and returns a runnable and a join handle
    /// for it.
    ///
    /// If the set is closed there is no runnable: the computation is to be
    /// dropped at once, and the join handle will report the task as
    /// cancelled.
    pub fn bind(&mut self) -> (r: (Option<Runnable>, JoinHandle))
        requires
            old(self)@.issued < u64::MAX,
        ensures
            final(self)@ == old(self)@.bind(),
            r.1.id() == old(self)@.issued,
            match r.0 {
                Some(runnable) => !old(self)@.closed && runnable.id() == old(self)@.issued,
                None => old(self)@.closed,
            },
    {
        let id: u64 = self.issued;
        self.issued = self.issued + 1;
        let mut task: TaskCell<T, W> = TaskCell::allocate();
        if self.closed {
            let _ = task.shutdown();
            let _ = task.dec_ref();
            self.cells.put(id, task);
            (None, JoinHandle::new(id))
        } else {
            task.inc_ref();
            self.cells.put(id, task);
            self.list.push(id);
            (Some(Runnable::new(id)), JoinHandle::new(id))
        }
    }

    /// The cell of task `id`, if it is alive.
    pub fn cell(&self, id: u64) -> (c: Option<&TaskCell<T, W>>)
        ensures
            match c {
                Some(cell) => self@.cells.contains_key(id) && *cell == self@.cells[id],
                None => !self@.cells.contains_key(id),
            },
    {
        self.cells.get(id)
    }

    /// Takes the cell of task `id` out, to be put back with [`Self::put`].
    pub(crate) fn take(&mut self, id: u64) -> (c: Option<TaskCell<T, W>>)
        ensures
            final(self)@ == (TaskSetView { cells: old(self)@.cells.remove(id), ..old(self)@ }),
            match c {
                Some(cell) => old(self)@.cells.contains_key(id) && cell == old(self)@.cells[id],
                None => !old(self)@.cells.contains_key(id),
            },
    {
        self.cells.take(id)
    }

    /// Puts the cell of task `id` in place.
    pub(crate) fn put(&mut self, id: u64, cell: TaskCell<T, W>)
        ensures
            final(self)@ == old(self)@.put(id, cell),
    {
        self.cells.put(id, cell)
    }

    /// Counts one more handle to task `id`.
    pub(crate) fn acquire(&mut self, id: u64)
        ensures
            final(self)@ == old(self)@.acquire(id),
    {
        let ghost before = self@;
        match self.cells.take(id) {
            Some(mut cell) => {
                cell.inc_ref();
                self.cells.put(id, cell);
                proof {
                    assert(self@.cells =~= acquire(before.cells, id));
                }
            },
            None => {
                proof {
                    assert(self@.cells =~= before.cells);
                }
            },
        }
    }

    /// Gives up one handle to task `id`; the cell is freed with its last
    /// handle. Returns whether the cell was freed.
    pub(crate) fn release(&mut self, id: u64) -> (freed: bool)
        ensures
            final(self)@ == old(self)@.release(id),
            freed == (old(self)@.cells.contains_key(id) && !final(self)@.cells.contains_key(id)),
    {
        let ghost before = self@;
        match self.cells.take(id) {
            Some(mut cell) => {
                if cell.dec_ref() {
                    true
                } else {
                    self.cells.put(id, cell);
                    proof {
                        assert(self@.cells =~= release(before.cells, id));
                    }
                    false
                }
            },
            None => {
                proof {
                    assert(self@.cells =~= before.cells);
                }
                false
            },
        }
    }

    /// Removes a task from the set: its registration ends and the reference
    /// of the registration is given up. Returns whether the task was
    /// registered.
    pub fn remove(&mut self, id: u64) -> (removed: bool)
        ensures
            final(self)@ == old(self)@.remove(id),
            removed == old(self)@.list.contains(id),
    {
        if remove_first(&mut self.list, id) {
            let _ = self.release(id);
            true
        } else {
            false
        }
    }

    /// Shuts down all tasks of the set, oldest first, and closes the set:
    /// no task can be registered with it any more.
    ///
    /// The computation of every task that had not finished is to be
    /// dropped. Returns the wake handles of the join sides that were
    /// waiting for such a task.
    pub fn shutdown(&mut self) -> (woken: Vec<W>)
        ensures
            final(self)@ == old(self)@.shutdown(),
            woken@ == shutdown_wakers(old(self)@.cells, old(self)@.list),
    {
        let ghost before = self@;
        self.closed = true;
        let mut woken: Vec<W> = Vec::new();
        let mut i: usize = 0;
        while i < self.list.len()
            invariant
                i <= self.list.len(),
                self.list@ == before.list,
                self.closed,
                self.issued == before.issued,
                self.cells@ == shutdown_each(before.cells, before.list.take(i as int)),
                woken@ == shutdown_wakers(before.cells, before.list.take(i as int)),
            decreases self.list.len() - i,
        {
            let id: u64 = self.list[i];
            let ghost now = self.cells@;
            proof {
                assert(before.list.take(i + 1).drop_last() =~= before.list.take(i as int));
                assert(before.list.take(i + 1).last() == id);
            }
            match self.cells.take(id) {
                Some(mut cell) => {
                    let waker = cell.shutdown();
                    let ghost shut = cell;
                    if !cell.dec_ref() {
                        self.cells.put(id, cell);
                    }
                    proof {
                        assert(self.cells@ =~= shutdown_one(now, id));
                    }
                    match waker {
                        Some(w) => {
                            woken.push(w);
                        },
                        None => {},
                    }
                },
                None => {
                    proof {
                        assert(self.cells@ =~= now);
                    }
                },
            }
            i = i + 1;
        }
        proof {
            assert(before.list.take(i as int) =~= before.list);
        }
        self.list.clear();
        woken
    }
}

} // verus!

//! The task engine: task cells, the set that owns them and the queue of
//! runnable tasks.
//!
//! A task is a deferred computation together with its output slot, its
//! scheduling state and the handle that observes its result. The engine
//! keeps everything but the computation itself: the caller polls the
//! computation when [`queue::TaskQueue::begin_run`] says so, and reports the
//! outcome to [`queue::TaskQueue::finish_run`].

pub mod cell;
pub mod handle;
pub mod laws;
pub mod queue;
pub mod set;
pub mod state;

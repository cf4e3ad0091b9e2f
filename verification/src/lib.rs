//! A single-threaded asynchronous runtime core built around a kernel
//! submission/completion ring.
//!
//! The crate holds the decision logic of the runtime as verified state
//! machines over plain values: the notifier, the task engine, the executor
//! loop, the operation records and the ring driver. Every function states
//! what it returns and how it changes its state; the suspension points
//! themselves (polling a computation, entering the kernel) are performed by
//! the caller, which hands the outcome back as a plain value.

pub mod buf;
pub mod driver;
pub mod error;
pub mod executor;
pub mod fd;
pub mod fs;
pub mod io;
pub mod keys;
pub mod net;
pub mod notify;
pub mod operation;
pub mod table;
pub mod task;
pub mod timer;

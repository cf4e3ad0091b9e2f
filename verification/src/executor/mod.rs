//! The executor loop: it drives a root computation, runs the tasks that are
//! ready, and parks when there is nothing to do.

pub mod context;
pub mod harness;
pub mod local;
pub mod park;

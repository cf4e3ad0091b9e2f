//! Time: the clock of the timer.

pub mod clock;
pub mod error;

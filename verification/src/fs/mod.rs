//! Filesystem operations.

pub mod file;
pub mod opts;

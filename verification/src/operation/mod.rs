//! Operation records: what links a submission to its completions.
//!
//! A record is made for each request. It is referred to by the handle of
//! the caller that submitted the request and, from the moment the request
//! is in the submission queue, by the kernel. The kernel gives its
//! reference up with the last completion of the request, the one that does
//! not announce more.

pub mod buffer;
pub mod cqe;
pub mod header;
pub mod op;
pub mod submission;

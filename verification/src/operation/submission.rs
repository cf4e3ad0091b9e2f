//! Submissions as plain values, and the traits of an operation.
//!
//! An operation describes its submission without the addresses of its
//! payload: the caller, which keeps the payload at a stable place, adds the
//! addresses when it builds the entry for the ring.

use vstd::prelude::*;
use crate::fd::FdKind;
use crate::operation::cqe::CQEResult;

verus! {

/// The request of an operation.
#[allow(inconsistent_fields)]
#[derive(Debug, PartialEq, Eq, Clone, Copy, Structural)]
pub enum Submission {
    /// Open the file at the path of the payload, relative to `dirfd`.
    OpenAt { dirfd: i32, flags: i32 },
    /// Read up to `len` bytes at `offset` into the buffer of the payload.
    Read { fd: FdKind, len: u32, offset: u64 },
    /// Write the `len` bytes of the buffer of the payload at `offset`.
    Write { fd: FdKind, len: u32, offset: u64 },
    /// Flush the file to disk: its data and, unless `datasync` is set, its
    /// metadata.
    Fsync { fd: FdKind, datasync: bool },
    /// Flush a range of the file to disk.
    SyncFileRange { fd: FdKind, len: u32, offset: u64, flags: u32 },
    /// Manipulate the space of a range of the file.
    Fallocate { fd: FdKind, len: u64, offset: u64, mode: i32 },
    /// Make a socket.
    Socket { domain: i32, socket_type: i32, protocol: i32 },
    /// Send the `len` bytes of the buffer of the payload as one message, to
    /// the address of the payload if the message is addressed.
    SendMsg { fd: FdKind, len: usize, addressed: bool },
    /// Receive a message of up to `len` bytes into the buffer of the
    /// payload, or into a buffer of the group, and the address of its
    /// sender into the payload.
    RecvMsg { fd: FdKind, len: usize, buf_group: Option<u16> },
    /// Send the `len` bytes of the buffer of the payload.
    Send { fd: FdKind, len: u32 },
    /// Receive up to `len` bytes into the buffer of the payload.
    Recv { fd: FdKind, len: u32 },
    /// Accept connections: one, or all that come.
    Accept { fd: FdKind, multishot: bool },
    /// Wait for readiness of the descriptor.
    Poll { fd: FdKind, flags: u32, multishot: bool },
}

/// A length as the ring takes it: its low 32 bits.
pub open spec fn spec_ring_len(len: usize) -> u32 {
    (len as int % 0x1_0000_0000) as u32
}

/// A length as the ring takes it: its low 32 bits.
#[verifier::when_used_as_spec(spec_ring_len)]
pub fn ring_len(len: usize) -> (r: u32)
    ensures
        r == spec_ring_len(len),
{
    let wide: u64 = len as u64;
    (wide % 0x1_0000_0000u64) as u32
}

/// An operation that can be submitted to the ring.
pub trait Operation {
    /// Describes the request of the operation.
    fn configure(&self) -> Submission;

    /// Releases what a completion has handed to the operation, after the
    /// caller has given the operation up: returns the descriptor to close,
    /// if the completion brought one.
    fn cleanup(&mut self, result: CQEResult) -> Option<i32>;
}

/// An operation with one completion.
pub trait Singleshot: Operation + Sized {
    /// The result of the operation.
    type Output;

    /// Turns the completion of the operation into its result.
    fn complete(self, result: CQEResult) -> Self::Output;
}

} // verus!

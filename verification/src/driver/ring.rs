//! The requests that the driver makes of the ring, and the answers of the
//! ring.
//!
//! The driver never enters the kernel itself. Each of its procedures is a
//! state machine: it names the next request, the caller performs it on the
//! ring, and the procedure resumes with the answer.

use vstd::prelude::*;
use crate::driver::token::{
    CANCELLATION_TOKEN,
    CLOSE_FD_TOKEN,
    DRAIN_TOKEN,
    UNPARKER_WAKE_TOKEN,
};
use crate::error::Errno;
use crate::executor::park::ParkMode;
use crate::fd::FdKind;
use crate::operation::cqe::Completion;

verus! {

/// The number of completions that are copied out of the completion queue
/// at a time.
pub const REAP_BATCH: usize = 32;

/// The length of the buffer that the read on the wake file fills.
pub const UNPARKER_READ_LEN: u32 = 8;

/// Which requests a cancellation is for.
#[derive(Debug, PartialEq, Eq, Clone, Copy, Structural)]
pub enum CancelCriteria {
    /// Every request.
    Any,
    /// The requests on this descriptor.
    Fd(FdKind),
    /// The request with this tag.
    UserData(u64),
}

/// The flags of a submission that the driver sets.
#[derive(Debug, PartialEq, Eq, Clone, Copy, Structural)]
pub struct EntryFlags {
    /// The request starts only when all requests before it have completed.
    pub io_drain: bool,
    /// The request posts a completion only if it fails.
    pub skip_success: bool,
}

/// A submission of the driver itself.
#[derive(Debug, PartialEq, Eq, Clone, Copy, Structural)]
pub enum DriverEntry {
    /// The read on the wake file of the unparker.
    UnparkerRead,
    /// The request that does nothing, and marks the end of a drain.
    Drain,
    /// An asynchronous cancellation.
    AsyncCancel(CancelCriteria),
    /// The closing of a descriptor.
    Close(FdKind),
}

impl DriverEntry {
    /// The tag of the submission.
    #[verifier::allow_in_spec]
    pub fn user_data(&self) -> u64
        returns
            (match *self {
                DriverEntry::UnparkerRead => UNPARKER_WAKE_TOKEN,
                DriverEntry::Drain => DRAIN_TOKEN,
                DriverEntry::AsyncCancel(_) => CANCELLATION_TOKEN,
                DriverEntry::Close(_) => CLOSE_FD_TOKEN,
            }),
    {
        match *self {
            DriverEntry::UnparkerRead => UNPARKER_WAKE_TOKEN,
            DriverEntry::Drain => DRAIN_TOKEN,
            DriverEntry::AsyncCancel(_) => CANCELLATION_TOKEN,
            DriverEntry::Close(_) => CLOSE_FD_TOKEN,
        }
    }

    /// The flags of the submission. The end of a drain waits for all
    /// requests before it; cancellations and closings report failures only.
    #[verifier::allow_in_spec]
    pub fn flags(&self) -> EntryFlags
        returns
            (match *self {
                DriverEntry::UnparkerRead => EntryFlags { io_drain: false, skip_success: false },
                DriverEntry::Drain => EntryFlags { io_drain: true, skip_success: false },
                DriverEntry::AsyncCancel(_) => EntryFlags { io_drain: false, skip_success: true },
                DriverEntry::Close(_) => EntryFlags { io_drain: false, skip_success: true },
            }),
    {
        match *self {
            DriverEntry::UnparkerRead => EntryFlags { io_drain: false, skip_success: false },
            DriverEntry::Drain => EntryFlags { io_drain: true, skip_success: false },
            DriverEntry::AsyncCancel(_) => EntryFlags { io_drain: false, skip_success: true },
            DriverEntry::Close(_) => EntryFlags { io_drain: false, skip_success: true },
        }
    }
}

/// A request to the ring.
#[derive(Debug, PartialEq, Eq, Clone, Copy, Structural)]
pub enum RingRequest {
    /// Copy up to [`REAP_BATCH`] completions out of the completion queue,
    /// and say whether more are waiting.
    Reap,
    /// Push this entry into the submission queue, if it has room.
    Push(DriverEntry),
    /// Submit the entries of the submission queue to the kernel, waiting as
    /// the mode says.
    Submit(ParkMode),
    /// Cancel requests with a system call of its own.
    SyncCancel(CancelCriteria),
}

/// The answer of the ring to a request.
#[derive(Debug)]
pub enum RingResponse {
    /// The completions that were copied out, and whether more are waiting.
    Reaped(Vec<Completion>, bool),
    /// Whether the entry was pushed; if not, the submission queue is full.
    Pushed(bool),
    /// The number of entries that were submitted, or the error.
    Submitted(Result<usize, Errno>),
    /// The result of the cancellation.
    SyncCancelled(Result<(), Errno>),
}

/// The mathematical model of an answer of the ring.
pub enum ResponseView {
    /// The completions that were copied out, and whether more are waiting.
    Reaped(Seq<Completion>, bool),
    /// Whether the entry was pushed.
    Pushed(bool),
    /// The number of entries that were submitted, or the error.
    Submitted(Result<usize, Errno>),
    /// The result of the cancellation.
    SyncCancelled(Result<(), Errno>),
}

impl View for RingResponse {
    type V = ResponseView;

    open spec fn view(&self) -> ResponseView {
        match *self {
            RingResponse::Reaped(entries, more) => ResponseView::Reaped(entries@, more),
            RingResponse::Pushed(ok) => ResponseView::Pushed(ok),
            RingResponse::Submitted(r) => ResponseView::Submitted(r),
            RingResponse::SyncCancelled(r) => ResponseView::SyncCancelled(r),
        }
    }
}

/// Why a procedure of the driver failed.
#[derive(Debug, PartialEq, Eq, Clone, Copy, Structural)]
pub enum Failure {
    /// The operating system returned this error.
    Os(Errno),
    /// The submission queue was still full after its entries were
    /// submitted.
    QueueFull,
    /// The answer does not belong to the request that was made.
    Protocol,
}

/// How a procedure goes on.
#[derive(Debug, PartialEq, Eq, Clone, Copy, Structural)]
pub enum Next {
    /// Perform this request, and resume with the answer.
    Request(RingRequest),
    /// The procedure is finished.
    Finished,
    /// The procedure failed.
    Failed(Failure),
}

} // verus!

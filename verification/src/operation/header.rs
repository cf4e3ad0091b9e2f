//! The header of an operation record.

use vstd::prelude::*;
use crate::operation::buffer::{
    buffer_len,
    buffer_new,
    buffer_push,
    buffer_remove,
    buffered,
    CompletionBuffer,
};
use crate::operation::cqe::CQEResult;

verus! {

/// The mathematical model of a header.
pub struct HeaderView<W> {
    /// The number of references to the record.
    pub refcount: usize,
    /// The wake handle of the caller that waits for a completion.
    pub waker: Option<W>,
    /// The completions that were delivered and not consumed, oldest first,
    /// each as its result code and its flags.
    pub completions: Seq<(i32, u32)>,
    /// Whether the last completion was delivered.
    pub complete: bool,
    /// Whether the request was put into the submission queue.
    pub submitted: bool,
}

impl<W> HeaderView<W> {
    /// Whether the kernel owns the record: the request was submitted, and
    /// its last completion has not been delivered.
    pub open spec fn kernel_owned(self) -> bool {
        self.submitted && !self.complete
    }
}

/// The header of an operation record. It is the handle through which the
/// driver completes operations.
pub struct Header<W> {
    refcount: usize,
    waker: Option<W>,
    completions: CompletionBuffer,
    complete: bool,
    submitted: bool,
}

impl<W> View for Header<W> {
    type V = HeaderView<W>;

    closed spec fn view(&self) -> HeaderView<W> {
        HeaderView {
            refcount: self.refcount,
            waker: self.waker,
            completions: buffered(self.completions),
            complete: self.complete,
            submitted: self.submitted,
        }
    }
}

impl<W> Header<W> {
    /// A new header, with a reference count of 1.
    pub fn new() -> (h: Self)
        ensures
            h@ == (HeaderView::<W> {
                refcount: 1,
                waker: None,
                completions: Seq::empty(),
                complete: false,
                submitted: false,
            }),
    {
        Header {
            refcount: 1,
            waker: None,
            completions: buffer_new(),
            complete: false,
            submitted: false,
        }
    }

    /// Whether the request was put into the submission queue.
    pub fn is_submitted(&self) -> (r: bool)
        ensures
            r == self@.submitted,
    {
        self.submitted
    }

    /// Notes that the request was put into the submission queue.
    pub fn set_submitted(&mut self)
        ensures
            final(self)@ == (HeaderView { submitted: true, ..old(self)@ }),
    {
        self.submitted = true;
    }

    /// Increments the reference count of the header.
    pub fn inc_refcount(&mut self)
        requires
            0 < old(self)@.refcount < usize::MAX,
        ensures
            final(self)@ == (HeaderView {
                refcount: (old(self)@.refcount + 1) as usize,
                ..old(self)@
            }),
    {
        self.refcount = self.refcount + 1;
    }

    /// Decrements the reference count of the header. Returns `true` if the
    /// count is now zero.
    pub fn dec_refcount(&mut self) -> (last: bool)
        requires
            old(self)@.refcount > 0,
        ensures
            final(self)@ == (HeaderView {
                refcount: (old(self)@.refcount - 1) as usize,
                ..old(self)@
            }),
            last == (old(self)@.refcount == 1),
    {
        self.refcount = self.refcount - 1;
        self.refcount == 0
    }

    /// Returns the current reference count of the header.
    pub fn refcount(&self) -> (n: usize)
        ensures
            n == self@.refcount,
    {
        self.refcount
    }

    /// The number of completions that were delivered and not consumed.
    pub fn completions(&self) -> (n: usize)
        ensures
            n == self@.completions.len(),
    {
        buffer_len(&self.completions)
    }

    /// Appends a completion to the completion list.
    pub fn push_completion(&mut self, result: i32, flags: u32)
        ensures
            final(self)@ == (HeaderView {
                completions: old(self)@.completions.push((result, flags)),
                ..old(self)@
            }),
    {
        buffer_push(&mut self.completions, (result, flags));
    }

    /// Takes the oldest completion out of the completion list.
    pub fn pop_completion(&mut self) -> (r: Option<CQEResult>)
        ensures
            match r {
                Some(c) => {
                    &&& old(self)@.completions.len() > 0
                    &&& c == CQEResult::new(old(self)@.completions[0].0, old(self)@.completions[0].1)
                    &&& final(self)@ == (HeaderView {
                        completions: old(self)@.completions.remove(0),
                        ..old(self)@
                    })
                },
                None => old(self)@.completions.len() == 0 && final(self)@ == old(self)@,
            },
    {
        if buffer_len(&self.completions) > 0 {
            let (result, flags) = buffer_remove(&mut self.completions, 0);
            Some(CQEResult::new(result, flags))
        } else {
            None
        }
    }

    /// Returns true if there are no more completions to be received.
    pub fn is_complete(&self) -> (r: bool)
        ensures
            r == self@.complete,
    {
        self.complete
    }

    /// Sets the complete flag. This is for the completion that announces no
    /// more.
    pub fn set_complete(&mut self)
        ensures
            final(self)@ == (HeaderView { complete: true, ..old(self)@ }),
    {
        self.complete = true;
    }

    /// Takes the wake handle from the header.
    pub fn take_waker(&mut self) -> (w: Option<W>)
        ensures
            w == old(self)@.waker,
            final(self)@ == (HeaderView { waker: None, ..old(self)@ }),
    {
        self.waker.take()
    }

    /// Sets the wake handle of the header, in place of an earlier one.
    pub fn set_waker(&mut self, waker: W)
        ensures
            final(self)@ == (HeaderView { waker: Some(waker), ..old(self)@ }),
    {
        self.waker = Some(waker);
    }
}

} // verus!

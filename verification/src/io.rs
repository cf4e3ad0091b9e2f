//! Traits and utilities for I/O that takes ownership of its buffers.
//!
//! An operation owns its buffer while the kernel works on it, and hands it
//! back with its result, whether it succeeded or not.

use vstd::prelude::*;
use crate::buf::StableBuf;

verus! {

/// A source of bytes that reads into a buffer which it takes ownership of.
pub trait AsyncReadOwned<B> {
    /// The operation that [`AsyncReadOwned::read`] returns.
    type ReadFuture;

    /// Starts a read into the given buffer.
    fn read(&mut self, buf: B) -> Self::ReadFuture;
}

/// A sink of bytes that writes a buffer which it takes ownership of.
pub trait AsyncWriteOwned<B> {
    /// The operation that [`AsyncWriteOwned::write`] returns.
    type WriteFuture;

    /// Starts a write of the given buffer.
    fn write(&mut self, buf: B) -> Self::WriteFuture;
}

/// More methods for [`AsyncReadOwned`].
pub trait AsyncReadOwnedExt<B>: AsyncReadOwned<B> {

}

/// More methods for [`AsyncWriteOwned`].
pub trait AsyncWriteOwnedExt<B>: AsyncWriteOwned<B> {
    /// Starts to write the entire contents of the buffer, as many bytes as
    /// the buffer says are initialised: the caller makes each write that
    /// [`WriteAll::next`] names and reports its result to
    /// [`WriteAll::advance`], until that returns the result of the whole
    /// together with the buffer.
    fn write_all(&mut self, buf: B) -> (w: WriteAll<B>) where B: StableBuf
        ensures
            exists|len: usize| #[trigger]
                call_ensures(B::bytes_init, (&buf,), len) && w@ == (WriteAllView {
                    written: 0,
                    remaining: len,
                    stopped: false,
                    buf: Some(buf),
                }),
    ;
}

impl<B, T: AsyncReadOwned<B>> AsyncReadOwnedExt<B> for T {

}

impl<B, T: AsyncWriteOwned<B>> AsyncWriteOwnedExt<B> for T {
    fn write_all(&mut self, buf: B) -> (w: WriteAll<B>) where B: StableBuf {
        let len = buf.bytes_init();
        WriteAll::new(buf, len)
    }
}

/// The mathematical model of [`WriteAll`].
pub struct WriteAllView<B> {
    /// The number of bytes written so far.
    pub written: usize,
    /// The number of bytes that are left to write.
    pub remaining: usize,
    /// Whether a write has written nothing.
    pub stopped: bool,
    /// The buffer, while no write has it.
    pub buf: Option<B>,
}

impl<B> WriteAllView<B> {
    /// What is written and what is left add up to the length of a buffer.
    pub open spec fn wf(self) -> bool {
        self.written + self.remaining <= usize::MAX
    }

    /// Whether another write is due: bytes are left, no write has written
    /// nothing, and the buffer is at hand.
    pub open spec fn due(self) -> bool {
        self.remaining > 0 && !self.stopped && self.buf is Some
    }

    /// The state after the next write was named: the buffer is with the
    /// write.
    pub open spec fn next(self) -> Self {
        if self.due() {
            WriteAllView { buf: None, ..self }
        } else {
            self
        }
    }

    /// The number of bytes that a write which reports `n` has taken: no
    /// more than were left.
    pub open spec fn taken(self, n: usize) -> usize {
        if n <= self.remaining {
            n
        } else {
            self.remaining
        }
    }

    /// Whether the write that returned `result` was the last: an error ends
    /// the whole, and so does a write that wrote nothing, or the last byte.
    pub open spec fn over<E>(self, result: Result<usize, E>) -> bool {
        match result {
            Ok(n) => n == 0 || self.remaining == self.taken(n),
            Err(_) => true,
        }
    }

    /// The result of the whole, if the write that returned `result` was the
    /// last: the number of bytes written in all, or the error of that
    /// write.
    pub open spec fn outcome<E>(self, result: Result<usize, E>) -> Result<usize, E> {
        match result {
            Ok(n) => Ok((self.written + self.taken(n)) as usize),
            Err(e) => Err(e),
        }
    }

    /// The state after a write returned `result` and gave `buf` back. The
    /// buffer is kept for the next write, unless the whole is over.
    pub open spec fn advance<E>(self, result: Result<usize, E>, buf: B) -> Self {
        let kept = if self.over(result) {
            None
        } else {
            Some(buf)
        };
        match result {
            Ok(n) => WriteAllView {
                written: (self.written + self.taken(n)) as usize,
                remaining: (self.remaining - self.taken(n)) as usize,
                stopped: self.stopped || n == 0,
                buf: kept,
            },
            Err(_) => WriteAllView { buf: kept, ..self },
        }
    }
}

/// The writing of the entire contents of a buffer, one write after the
/// other. The buffer goes out with each write and comes back with its
/// result; it is handed back with the result of the whole.
#[derive(Debug)]
pub struct WriteAll<B> {
    written: usize,
    remaining: usize,
    stopped: bool,
    buf: Option<B>,
}

impl<B> View for WriteAll<B> {
    type V = WriteAllView<B>;

    closed spec fn view(&self) -> WriteAllView<B> {
        WriteAllView {
            written: self.written,
            remaining: self.remaining,
            stopped: self.stopped,
            buf: self.buf,
        }
    }
}

impl<B> WriteAll<B> {
    /// The writing of the first `len` bytes of `buf`.
    pub fn new(buf: B, len: usize) -> (w: Self)
        ensures
            w@ == (WriteAllView { written: 0, remaining: len, stopped: false, buf: Some(buf) }),
            w@.wf(),
    {
        WriteAll { written: 0, remaining: len, stopped: false, buf: Some(buf) }
    }

    /// The next write: the offset in the buffer, the number of bytes, and
    /// the buffer itself; or nothing if the whole is over, or a write is
    /// under way.
    pub fn next(&mut self) -> (r: Option<(usize, usize, B)>)
        ensures
            final(self)@ == old(self)@.next(),
            r == (if old(self)@.due() {
                Some((old(self)@.written, old(self)@.remaining, old(self)@.buf->0))
            } else {
                None
            }),
    {
        if self.remaining > 0 && !self.stopped {
            match self.buf.take() {
                Some(buf) => Some((self.written, self.remaining, buf)),
                None => None,
            }
        } else {
            None
        }
    }

    /// Reports the result of a write, and gives the buffer back. If the
    /// whole is over, its result is returned with the buffer: the number of
    /// bytes written in all, or the error of the write that failed, as it
    /// is. Otherwise the buffer is kept for the next write.
    pub fn advance<E>(&mut self, result: Result<usize, E>, buf: B) -> (r: Option<
        (Result<usize, E>, B),
    >)
        requires
            old(self)@.wf(),
        ensures
            final(self)@ == old(self)@.advance(result, buf),
            final(self)@.wf(),
            final(self)@.written + final(self)@.remaining == old(self)@.written + old(self)@.remaining,
            r == (if old(self)@.over(result) {
                Some((old(self)@.outcome(result), buf))
            } else {
                None
            }),
    {
        match result {
            Ok(n) => {
                let taken = if n <= self.remaining {
                    n
                } else {
                    self.remaining
                };
                self.written = self.written + taken;
                self.remaining = self.remaining - taken;
                if n == 0 {
                    self.stopped = true;
                }
                if n == 0 || self.remaining == 0 {
                    self.buf = None;
                    Some((Ok(self.written), buf))
                } else {
                    self.buf = Some(buf);
                    None
                }
            },
            Err(e) => {
                self.buf = None;
                Some((Err(e), buf))
            },
        }
    }

    /// Ends the writing, and returns the number of bytes written with the
    /// buffer, if no write has it. This is how a writing comes to its end
    /// when there was nothing to write.
    pub fn into_inner(self) -> (r: (usize, Option<B>))
        ensures
            r.0 == self@.written,
            r.1 == self@.buf,
    {
        (self.written, self.buf)
    }
}

/// The buffer that is handed in for a writing comes back with its result,
/// whether the writing succeeded or not: each write gets the buffer that
/// the writing holds, and the buffer that a write gives back is the one
/// that is kept, or returned with the result of the whole. After an error
/// no further write is named.
pub proof fn law_write_all_returns_the_buffer<B, E>(
    v: WriteAllView<B>,
    buf: B,
    result: Result<usize, E>,
)
    requires
        v.wf(),
    ensures
        v.due() ==> v.next().buf is None && v.buf is Some,
        !v.over(result) ==> v.advance(result, buf).buf == Some(buf),
        v.over(result) ==> !v.advance(result, buf).due(),
        result is Err ==> v.over(result) && v.outcome(result) == result && v.advance(
            result,
            buf,
        ).written == v.written,
        v.advance(result, buf).wf(),
        v.advance(result, buf).written + v.advance(result, buf).remaining == v.written
            + v.remaining,
{
}

} // verus!

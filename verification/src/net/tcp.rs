//! TCP listeners and streams.

use vstd::prelude::*;
use crate::driver::shared::{Shared, SharedView};
use crate::error::{Errno, IoError, EAGAIN};
use crate::fd::FdKind;
use crate::io::{AsyncReadOwned, AsyncWriteOwned};
use crate::net::socket::{Accept, Recv, Send, Socket, READ_FLAGS, WRITE_FLAGS};
use crate::operation::op::{op_forwarded, op_released, op_step, Ended, Op, OpStep, OpView};
use crate::operation::submission::Submission;

verus! {

/// The type of a stream socket.
pub const SOCK_STREAM: i32 = 1;

/// A TCP listener, which accepts incoming connections.
#[derive(Debug)]
pub struct TcpListener {
    inner: Socket,
}

/// A TCP stream.
#[derive(Debug)]
pub struct TcpStream {
    socket: Socket,
}

impl View for TcpListener {
    type V = Socket;

    closed spec fn view(&self) -> Socket {
        self.inner
    }
}

impl View for TcpStream {
    type V = Socket;

    closed spec fn view(&self) -> Socket {
        self.socket
    }
}

/// What a poll of a stream of connections gave, or asks of the caller.
#[derive(Debug)]
pub enum IncomingPoll {
    /// Push this request now, with this tag, and poll again.
    Push(u64, Submission),
    /// The next connection, or the error of the attempt; or nothing, if the
    /// kernel has ended the accepting.
    Ready(Option<Result<TcpStream, IoError>>),
    /// No connection is there yet.
    Pending,
}

/// The mathematical model of [`IncomingPoll`].
pub enum IncomingPollView {
    /// Push this request now, with this tag, and poll again.
    Push(u64, Submission),
    /// The socket of the next connection, or the error; or nothing.
    Ready(Option<Result<Socket, IoError>>),
    /// No connection is there yet.
    Pending,
}

impl View for IncomingPoll {
    type V = IncomingPollView;

    open spec fn view(&self) -> IncomingPollView {
        match *self {
            IncomingPoll::Push(tag, s) => IncomingPollView::Push(tag, s),
            IncomingPoll::Ready(Some(Ok(stream))) => IncomingPollView::Ready(Some(Ok(stream@))),
            IncomingPoll::Ready(Some(Err(e))) => IncomingPollView::Ready(Some(Err(e))),
            IncomingPoll::Ready(None) => IncomingPollView::Ready(None),
            IncomingPoll::Pending => IncomingPollView::Pending,
        }
    }
}

/// What a poll for readiness gave, or asks of the caller.
#[derive(Debug, PartialEq, Eq, Clone, Copy)]
pub enum ReadyPoll {
    /// Push this request now, with this tag, and poll again.
    Push(u64, Submission),
    /// The socket is ready, or the waiting failed.
    Ready(Result<(), IoError>),
    /// The socket is not ready.
    Pending,
    /// The kernel has ended the waiting: poll again, to start it anew.
    Again,
}

/// The operation that a stream polls: the one in flight or, if there is
/// none, a new one.
pub open spec fn current_op<W>(shared: SharedView<W>, current: Option<OpView>) -> OpView {
    match current {
        Some(op) => op,
        None => OpView { tag: shared.next_tag as u64, submitted: false, push: None },
    }
}

/// The shared state in which a stream polls its operation: a stream
/// without an operation in flight makes the record of a new one first.
pub open spec fn current_shared<W>(shared: SharedView<W>, current: Option<OpView>) -> SharedView<
    W,
> {
    match current {
        Some(_) => shared,
        None => shared.allocate(),
    }
}

/// A poll of a stream of connections: the shared state and the operation
/// in flight after it, and its result.
pub struct IncomingStep<W> {
    /// The shared state.
    pub shared: SharedView<W>,
    /// The operation in flight.
    pub current: Option<OpView>,
    /// The result of the poll.
    pub poll: IncomingPollView,
    /// Whether an operation was given up, and what came of it.
    pub forwarded: Option<W>,
}

/// The stream of the connections to `listener` is polled.
///
/// The stream accepts with one request for all connections. A connection
/// that the request reports is handed out. An error ends the request, and
/// is handed out; the next poll starts a new request. So does the poll
/// after the kernel has ended the request.
pub open spec fn incoming_step<W>(
    shared: SharedView<W>,
    current: Option<OpView>,
    listener: Socket,
    sq_full: bool,
    waker: W,
) -> IncomingStep<W> {
    let op = current_op(shared, current);
    let step = op_step(current_shared(shared, current), op, sq_full, waker);
    match step.result {
        OpStep::Push => IncomingStep {
            shared: step.shared,
            current: Some(step.op),
            poll: IncomingPollView::Push(
                op.tag,
                Submission::Accept { fd: listener.fd, multishot: true },
            ),
            forwarded: None,
        },
        OpStep::Pending => IncomingStep {
            shared: step.shared,
            current: Some(step.op),
            poll: IncomingPollView::Pending,
            forwarded: None,
        },
        OpStep::Ready(c) => match Accept::accepted(c) {
            Ok(socket) => IncomingStep {
                shared: step.shared,
                current: Some(step.op),
                poll: IncomingPollView::Ready(Some(Ok(socket))),
                forwarded: None,
            },
            Err(e) => IncomingStep {
                shared: op_released(step.shared, step.op),
                current: None,
                poll: IncomingPollView::Ready(Some(Err(IoError::Os(e)))),
                forwarded: op_forwarded(step.shared, step.op),
            },
        },
        OpStep::ShuttingDown(e) => IncomingStep {
            shared: op_released(step.shared, step.op),
            current: None,
            poll: IncomingPollView::Ready(Some(Err(IoError::Submit(e)))),
            forwarded: op_forwarded(step.shared, step.op),
        },
        OpStep::Finished => IncomingStep {
            shared: op_released(step.shared, step.op),
            current: None,
            poll: IncomingPollView::Ready(None),
            forwarded: op_forwarded(step.shared, step.op),
        },
    }
}

/// The stream of the connections that come in to a listener.
#[derive(Debug)]
pub struct Incoming {
    listener: Socket,
    current: Option<Op>,
}

impl Incoming {
    /// The socket of the listener.
    pub closed spec fn listener(&self) -> Socket {
        self.listener
    }

    /// The operation in flight.
    pub closed spec fn current(&self) -> Option<OpView> {
        match self.current {
            Some(op) => Some(op@),
            None => None,
        }
    }

    /// Polls the stream for the next connection. With the result comes what
    /// giving up an operation asks of the caller, if the poll gave one up.
    pub fn poll_next<W>(&mut self, shared: &mut Shared<W>, sq_full: bool, waker: W) -> (r: (
        IncomingPoll,
        Option<Ended<W>>,
    ))
        requires
            old(shared)@.next_tag < u64::MAX,
            old(shared)@.backpressure.issued < u64::MAX,
        ensures
            final(self).listener() == old(self).listener(),
            final(shared)@ == incoming_step(
                old(shared)@,
                old(self).current(),
                old(self).listener(),
                sq_full,
                waker,
            ).shared,
            final(self).current() == incoming_step(
                old(shared)@,
                old(self).current(),
                old(self).listener(),
                sq_full,
                waker,
            ).current,
            r.0@ == incoming_step(
                old(shared)@,
                old(self).current(),
                old(self).listener(),
                sq_full,
                waker,
            ).poll,
            r.1 is Some <==> final(self).current() is None,
            r.1 matches Some(ended) ==> ended.forwarded == incoming_step(
                old(shared)@,
                old(self).current(),
                old(self).listener(),
                sq_full,
                waker,
            ).forwarded,
    {
        let mut op = match self.current.take() {
            Some(op) => op,
            None => Op::new(shared),
        };
        let tag: u64 = op.tag();
        match op.poll(shared, sq_full, waker) {
            OpStep::Push => {
                self.current = Some(op);
                (
                    IncomingPoll::Push(
                        tag,
                        Submission::Accept { fd: self.listener.fd, multishot: true },
                    ),
                    None,
                )
            },
            OpStep::Pending => {
                self.current = Some(op);
                (IncomingPoll::Pending, None)
            },
            OpStep::Ready(c) => {
                let accept = self.listener.accept_multi();
                match accept.next(c) {
                    Ok(socket) => {
                        self.current = Some(op);
                        (IncomingPoll::Ready(Some(Ok(TcpStream { socket }))), None)
                    },
                    Err(e) => {
                        let ended = op.release(shared);
                        (IncomingPoll::Ready(Some(Err(IoError::Os(e)))), Some(ended))
                    },
                }
            },
            OpStep::ShuttingDown(e) => {
                let ended = op.release(shared);
                (IncomingPoll::Ready(Some(Err(IoError::Submit(e)))), Some(ended))
            },
            OpStep::Finished => {
                let ended = op.release(shared);
                (IncomingPoll::Ready(None), Some(ended))
            },
        }
    }
}

impl TcpListener {
    /// The listener of a socket that was bound and listens.
    pub fn from_socket(inner: Socket) -> (l: Self)
        ensures
            l@ == inner,
    {
        TcpListener { inner }
    }

    /// The operation that accepts a new incoming connection.
    pub fn accept(&self) -> (op: Accept)
        ensures
            op == (Accept { fd: self@.fd, multishot: false }),
    {
        self.inner.accept()
    }

    /// Returns a stream of incoming connections. No request is in flight
    /// before the stream is polled.
    pub fn incoming(&self) -> (i: Incoming)
        ensures
            i.listener() == self@,
            i.current() is None,
    {
        Incoming { listener: self.inner, current: None }
    }

    /// Gives the listener up, and returns its descriptor, which is to be
    /// closed.
    pub fn close(self) -> (fd: FdKind)
        ensures
            fd == self@.fd,
    {
        self.inner.close()
    }
}

/// The mathematical model of a [`ReadyStream`].
pub struct ReadyView {
    /// The socket.
    pub inner: Socket,
    /// The request for readiness in flight.
    pub armed: Option<OpView>,
    /// Whether the socket counts as ready.
    pub notified: bool,
}

/// A poll for readiness: the shared state and the stream after it, and its
/// result.
pub struct ReadyStep<W> {
    /// The shared state.
    pub shared: SharedView<W>,
    /// The stream.
    pub stream: ReadyView,
    /// The result of the poll.
    pub poll: ReadyPoll,
    /// The wake handle that an operation which was given up hands out.
    pub forwarded: Option<W>,
}

/// A stream is polled for the readiness that `flags` name.
///
/// A stream that counts as ready is ready. Otherwise the stream waits with
/// one request for every time that the socket becomes ready: a report of
/// the request makes the stream ready, an error of the request is handed
/// out, and the end of the request asks for another poll, which starts a
/// new request.
pub open spec fn ready_step<W>(
    shared: SharedView<W>,
    stream: ReadyView,
    sq_full: bool,
    waker: W,
    flags: u32,
) -> ReadyStep<W> {
    if stream.notified {
        ReadyStep { shared, stream, poll: ReadyPoll::Ready(Ok(())), forwarded: None }
    } else {
        let op = current_op(shared, stream.armed);
        let step = op_step(current_shared(shared, stream.armed), op, sq_full, waker);
        match step.result {
            OpStep::Push => ReadyStep {
                shared: step.shared,
                stream: ReadyView { armed: Some(step.op), ..stream },
                poll: ReadyPoll::Push(
                    op.tag,
                    Submission::Poll { fd: stream.inner.fd, flags, multishot: true },
                ),
                forwarded: None,
            },
            OpStep::Pending => ReadyStep {
                shared: step.shared,
                stream: ReadyView { armed: Some(step.op), ..stream },
                poll: ReadyPoll::Pending,
                forwarded: None,
            },
            OpStep::Ready(c) => match c.result {
                Ok(_) => ReadyStep {
                    shared: step.shared,
                    stream: ReadyView { armed: Some(step.op), notified: true, ..stream },
                    poll: ReadyPoll::Ready(Ok(())),
                    forwarded: None,
                },
                Err(e) => ReadyStep {
                    shared: step.shared,
                    stream: ReadyView { armed: Some(step.op), ..stream },
                    poll: ReadyPoll::Ready(Err(IoError::Os(e))),
                    forwarded: None,
                },
            },
            OpStep::ShuttingDown(e) => ReadyStep {
                shared: op_released(step.shared, step.op),
                stream: ReadyView { armed: None, ..stream },
                poll: ReadyPoll::Ready(Err(IoError::Submit(e))),
                forwarded: op_forwarded(step.shared, step.op),
            },
            OpStep::Finished => ReadyStep {
                shared: op_released(step.shared, step.op),
                stream: ReadyView { armed: None, ..stream },
                poll: ReadyPoll::Again,
                forwarded: op_forwarded(step.shared, step.op),
            },
        }
    }
}

/// A socket together with its readiness: a system call that does not block
/// is made on the socket when the kernel has reported it ready.
#[derive(Debug)]
pub struct ReadyStream {
    inner: Socket,
    armed: Option<Op>,
    notified: bool,
}

impl View for ReadyStream {
    type V = ReadyView;

    closed spec fn view(&self) -> ReadyView {
        ReadyView {
            inner: self.inner,
            armed: match self.armed {
                Some(op) => Some(op@),
                None => None,
            },
            notified: self.notified,
        }
    }
}

impl ReadyStream {
    /// The stream of a socket. It counts as ready, so that the first system
    /// call is made without waiting.
    pub fn new(inner: Socket) -> (s: Self)
        ensures
            s@ == (ReadyView { inner, armed: None, notified: true }),
    {
        ReadyStream { inner, armed: None, notified: true }
    }

    /// Polls for the readiness that `flags` name. With the result comes
    /// what giving up an operation asks of the caller, if the poll gave one
    /// up.
    pub fn poll_ready<W>(&mut self, shared: &mut Shared<W>, sq_full: bool, waker: W, flags: u32) -> (r:
        (ReadyPoll, Option<Ended<W>>))
        requires
            old(shared)@.next_tag < u64::MAX,
            old(shared)@.backpressure.issued < u64::MAX,
        ensures
            final(shared)@ == ready_step(old(shared)@, old(self)@, sq_full, waker, flags).shared,
            final(self)@ == ready_step(old(shared)@, old(self)@, sq_full, waker, flags).stream,
            r.0 == ready_step(old(shared)@, old(self)@, sq_full, waker, flags).poll,
            r.1 matches Some(ended) ==> ended.forwarded == ready_step(
                old(shared)@,
                old(self)@,
                sq_full,
                waker,
                flags,
            ).forwarded,
            r.1 is Some <==> !old(self)@.notified && final(self)@.armed is None,
    {
        if self.notified {
            return (ReadyPoll::Ready(Ok(())), None);
        }
        let mut op = match self.armed.take() {
            Some(op) => op,
            None => Op::new(shared),
        };
        let tag: u64 = op.tag();
        match op.poll(shared, sq_full, waker) {
            OpStep::Push => {
                self.armed = Some(op);
                (
                    ReadyPoll::Push(
                        tag,
                        Submission::Poll { fd: self.inner.fd, flags, multishot: true },
                    ),
                    None,
                )
            },
            OpStep::Pending => {
                self.armed = Some(op);
                (ReadyPoll::Pending, None)
            },
            OpStep::Ready(c) => {
                self.armed = Some(op);
                match c.result {
                    Ok(_) => {
                        self.notified = true;
                        (ReadyPoll::Ready(Ok(())), None)
                    },
                    Err(e) => (ReadyPoll::Ready(Err(IoError::Os(e))), None),
                }
            },
            OpStep::ShuttingDown(e) => {
                let ended = op.release(shared);
                (ReadyPoll::Ready(Err(IoError::Submit(e))), Some(ended))
            },
            OpStep::Finished => {
                let ended = op.release(shared);
                (ReadyPoll::Again, Some(ended))
            },
        }
    }

    /// Takes the result of the system call that was made on the ready
    /// socket. A call that would have blocked shows that the socket is not
    /// ready any more: the stream has to be polled for readiness again, and
    /// the call repeated. Every other result is the result of the
    /// operation.
    pub fn poll_op<U>(&mut self, result: Result<U, Errno>) -> (r: Option<Result<U, Errno>>)
        ensures
            match result {
                Err(e) if e.code == EAGAIN => r is None && final(self)@ == (ReadyView {
                    notified: false,
                    ..old(self)@
                }),
                _ => r == Some(result) && final(self)@ == old(self)@,
            },
    {
        match result {
            Ok(v) => Some(Ok(v)),
            Err(e) => {
                if e.code == EAGAIN {
                    self.notified = false;
                    None
                } else {
                    Some(Err(e))
                }
            },
        }
    }
}

/// The reading half of a TCP stream.
#[derive(Debug)]
pub struct TcpStreamReader {
    inner: ReadyStream,
}

/// The writing half of a TCP stream.
#[derive(Debug)]
pub struct TcpStreamWriter {
    inner: ReadyStream,
}

impl View for TcpStreamReader {
    type V = ReadyView;

    closed spec fn view(&self) -> ReadyView {
        self.inner@
    }
}

impl View for TcpStreamWriter {
    type V = ReadyView;

    closed spec fn view(&self) -> ReadyView {
        self.inner@
    }
}

impl TcpStreamReader {
    /// The readiness of the socket for reading.
    pub fn ready(&mut self) -> (s: &mut ReadyStream)
        ensures
            s@ == old(self)@,
            final(self)@ == final(s)@,
    {
        &mut self.inner
    }

    /// The readiness that the reader waits for.
    pub fn flags(&self) -> (f: u32)
        ensures
            f == READ_FLAGS,
    {
        READ_FLAGS
    }
}

impl TcpStreamWriter {
    /// The readiness of the socket for writing.
    pub fn ready(&mut self) -> (s: &mut ReadyStream)
        ensures
            s@ == old(self)@,
            final(self)@ == final(s)@,
    {
        &mut self.inner
    }

    /// The readiness that the writer waits for.
    pub fn flags(&self) -> (f: u32)
        ensures
            f == WRITE_FLAGS,
    {
        WRITE_FLAGS
    }
}

impl TcpStream {
    /// The stream of a socket that is connected.
    pub fn from_socket(socket: Socket) -> (s: Self)
        ensures
            s@ == socket,
    {
        TcpStream { socket }
    }

    /// Splits the stream into a reader and a writer. Both count as ready.
    pub fn split(&self) -> (r: (TcpStreamReader, TcpStreamWriter))
        ensures
            r.0@ == (ReadyView { inner: self@, armed: None, notified: true }),
            r.1@ == (ReadyView { inner: self@, armed: None, notified: true }),
    {
        let reader = TcpStreamReader { inner: ReadyStream::new(self.socket) };
        let writer = TcpStreamWriter { inner: ReadyStream::new(self.socket) };
        (reader, writer)
    }

    /// Gives the stream up, and returns its descriptor, which is to be
    /// closed.
    pub fn close(self) -> (fd: FdKind)
        ensures
            fd == self@.fd,
    {
        self.socket.close()
    }
}

impl<B> AsyncReadOwned<B> for TcpStream {
    type ReadFuture = Recv<B>;

    fn read(&mut self, buf: B) -> (op: Recv<B>)
        ensures
            op == (Recv { fd: old(self)@.fd, buf }),
            final(self)@ == old(self)@,
    {
        self.socket.recv(buf)
    }
}

impl<B> AsyncWriteOwned<B> for TcpStream {
    type WriteFuture = Send<B>;

    fn write(&mut self, buf: B) -> (op: Send<B>)
        ensures
            op == (Send { fd: old(self)@.fd, buf }),
            final(self)@ == old(self)@,
    {
        self.socket.send(buf)
    }
}

} // verus!

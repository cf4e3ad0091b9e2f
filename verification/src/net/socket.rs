//! Socket operations.
//!
//! [`Socket`] is the core socket type used by both TCP and UDP sockets.
//! Socket addresses are values of a type chosen by the caller, which reads
//! them out of the payload of an operation when it completes.

use vstd::prelude::*;
use crate::error::{Errno, EINVAL};
use crate::fd::FdKind;
use crate::fs::file::{descriptor, length_result};
use crate::operation::cqe::CQEResult;
use crate::operation::submission::{ring_len, Operation, Singleshot, Submission};

verus! {

/// The socket does not block.
pub const SOCK_NONBLOCK: i32 = 0x800;

/// The socket is closed when the process executes another program.
pub const SOCK_CLOEXEC: i32 = 0x80000;

/// There is data to read.
pub const POLLIN: u32 = 0x001;

/// Writing is possible.
pub const POLLOUT: u32 = 0x004;

/// The readiness that a read waits for.
pub const READ_FLAGS: u32 = POLLIN;

/// The readiness that a write waits for.
pub const WRITE_FLAGS: u32 = POLLOUT;

/// The flag of a completion that says that a buffer was selected.
pub const CQE_F_BUFFER: u32 = 1;

/// The position of the number of the selected buffer in the flags.
pub const CQE_BUFFER_SHIFT: u32 = 16;

/// `io_uring::cqueue::buffer_select`: the number of the buffer that the
/// kernel selected for the operation, which the high half of the flags
/// holds if the flag for it is set.
pub assume_specification[ io_uring::cqueue::buffer_select ](flags: u32) -> (r: Option<u16>)
    ensures
        r == (if flags & CQE_F_BUFFER != 0 {
            Some((flags >> CQE_BUFFER_SHIFT) as u16)
        } else {
            None::<u16>
        }),
;

/// A socket.
#[derive(Debug, PartialEq, Eq, Clone, Copy, Structural)]
pub struct Socket {
    /// The descriptor of the socket.
    pub fd: FdKind,
}

impl Socket {
    /// The socket of a descriptor.
    pub fn from_fd(fd: FdKind) -> (s: Self)
        ensures
            s.fd == fd,
    {
        Socket { fd }
    }

    /// The operation that makes a socket.
    pub fn open(domain: i32, socket_type: i32, protocol: Option<i32>) -> (op: OpenSocket)
        ensures
            op == (OpenSocket { domain, socket_type, protocol }),
    {
        OpenSocket { domain, socket_type, protocol }
    }

    /// The operation that receives a message into a buffer of the group
    /// `bgid`.
    pub fn recv_from_ring(&self, bgid: u16) -> (op: RecvFromRing)
        ensures
            op == (RecvFromRing { fd: self.fd, bgid }),
    {
        RecvFromRing::new(self.fd, bgid)
    }

    /// The operation that receives a message into `buf`.
    pub fn recv_from<B>(&self, buf: B) -> (op: RecvFrom<B>)
        ensures
            op == (RecvFrom { fd: self.fd, buf }),
    {
        RecvFrom::new(self.fd, buf)
    }

    /// The operation that sends `buf` as a message to an address.
    pub fn send_to<B>(&self, buf: B) -> (op: SendTo<B>)
        ensures
            op == (SendTo { fd: self.fd, buf, addressed: true }),
    {
        SendTo::new(self.fd, buf, true)
    }

    /// The operation that receives bytes into `buf`.
    pub fn recv<B>(&self, buf: B) -> (op: Recv<B>)
        ensures
            op == (Recv { fd: self.fd, buf }),
    {
        Recv { fd: self.fd, buf }
    }

    /// The operation that sends the bytes of `buf`.
    pub fn send<B>(&self, buf: B) -> (op: Send<B>)
        ensures
            op == (Send { fd: self.fd, buf }),
    {
        Send { fd: self.fd, buf }
    }

    /// The operation that accepts one connection.
    pub fn accept(&self) -> (op: Accept)
        ensures
            op == (Accept { fd: self.fd, multishot: false }),
    {
        Accept { fd: self.fd, multishot: false }
    }

    /// The operation that accepts every connection that comes.
    pub fn accept_multi(&self) -> (op: Accept)
        ensures
            op == (Accept { fd: self.fd, multishot: true }),
    {
        Accept { fd: self.fd, multishot: true }
    }

    /// The operation that reports each time the socket is ready as `flags`
    /// say.
    pub fn poll_ready(&self, flags: u32) -> (op: PollReady)
        ensures
            op == (PollReady { fd: self.fd, flags }),
    {
        PollReady { fd: self.fd, flags }
    }

    /// Gives the socket up, and returns its descriptor, which is to be
    /// closed.
    pub fn close(self) -> (fd: FdKind)
        ensures
            fd == self.fd,
    {
        self.fd
    }
}

/// The making of a socket.
#[derive(Debug, PartialEq, Eq, Clone, Copy)]
pub struct OpenSocket {
    /// The domain of the socket.
    pub domain: i32,
    /// The type of the socket.
    pub socket_type: i32,
    /// The protocol, if it is not the default one.
    pub protocol: Option<i32>,
}

impl Operation for OpenSocket {
    fn configure(&self) -> (s: Submission)
        ensures
            s == (Submission::Socket {
                domain: self.domain,
                socket_type: self.socket_type | SOCK_NONBLOCK | SOCK_CLOEXEC,
                protocol: match self.protocol {
                    Some(p) => p,
                    None => 0,
                },
            }),
    {
        Submission::Socket {
            domain: self.domain,
            socket_type: self.socket_type | SOCK_NONBLOCK | SOCK_CLOEXEC,
            protocol: match self.protocol {
                Some(p) => p,
                None => 0,
            },
        }
    }

    fn cleanup(&mut self, result: CQEResult) -> (close: Option<i32>)
        ensures
            close == descriptor(result),
            *final(self) == *old(self),
    {
        descriptor(result)
    }
}

impl Singleshot for OpenSocket {
    type Output = Result<Socket, Errno>;

    fn complete(self, result: CQEResult) -> (out: Result<Socket, Errno>)
        ensures
            out == (match result.result {
                Ok(n) => Ok(Socket { fd: FdKind::Fd(n as i32) }),
                Err(e) => Err(e),
            }),
    {
        match result.result {
            Ok(n) => Ok(Socket { fd: FdKind::Fd(#[verifier::truncate] (n as i32)) }),
            Err(e) => Err(e),
        }
    }
}

/// The sending of a message.
#[derive(Debug)]
pub struct SendTo<B> {
    /// The descriptor of the socket.
    pub fd: FdKind,
    /// The buffer that holds the message.
    pub buf: B,
    /// Whether the message names its destination.
    pub addressed: bool,
}

impl<B> SendTo<B> {
    /// The sending of `buf` on the socket `fd`.
    pub fn new(fd: FdKind, buf: B, addressed: bool) -> (op: Self)
        ensures
            op == (SendTo { fd, buf, addressed }),
    {
        SendTo { fd, buf, addressed }
    }

    /// The request of the sending, for a buffer with `len` initialised
    /// bytes.
    pub fn configure(&self, len: usize) -> (s: Submission)
        ensures
            s == (Submission::SendMsg { fd: self.fd, len, addressed: self.addressed }),
    {
        Submission::SendMsg { fd: self.fd, len, addressed: self.addressed }
    }

    /// Turns the completion into the result: the number of bytes sent, or
    /// the error. The buffer comes back in either case.
    pub fn complete(self, result: CQEResult) -> (out: (Result<usize, Errno>, B))
        ensures
            out.0 == length_result(result),
            out.1 == self.buf,
    {
        (length_result(result), self.buf)
    }
}

/// The receiving of a message.
#[derive(Debug)]
pub struct RecvFrom<B> {
    /// The descriptor of the socket.
    pub fd: FdKind,
    /// The buffer to receive into.
    pub buf: B,
}

impl<B> RecvFrom<B> {
    /// The receiving of a message on the socket `fd` into `buf`.
    pub fn new(fd: FdKind, buf: B) -> (op: Self)
        ensures
            op == (RecvFrom { fd, buf }),
    {
        RecvFrom { fd, buf }
    }

    /// The request of the receiving, for a buffer that can take `len`
    /// bytes.
    pub fn configure(&self, len: usize) -> (s: Submission)
        ensures
            s == (Submission::RecvMsg { fd: self.fd, len, buf_group: None }),
    {
        Submission::RecvMsg { fd: self.fd, len, buf_group: None }
    }

    /// Turns the completion into the result: the number of bytes received,
    /// which the caller marks as initialised in the buffer, with the
    /// address `addr` of the sender, or the error. The buffer comes back in
    /// either case.
    pub fn complete<A>(self, result: CQEResult, addr: A) -> (out: (Result<(usize, A), Errno>, B))
        ensures
            out.0 == (match length_result(result) {
                Ok(n) => Ok::<(usize, A), Errno>((n, addr)),
                Err(e) => Err::<(usize, A), Errno>(e),
            }),
            out.1 == self.buf,
    {
        match length_result(result) {
            Ok(n) => (Ok((n, addr)), self.buf),
            Err(e) => (Err(e), self.buf),
        }
    }
}

/// A buffer of a buffer ring that the kernel selected, with the number of
/// bytes that it holds.
#[derive(Debug, PartialEq, Eq, Clone, Copy, Structural)]
pub struct Selected {
    /// The number of the buffer in its group.
    pub buffer: u16,
    /// The number of bytes in the buffer.
    pub len: u32,
}

/// The buffer that a completion reports, if it succeeded and selected one.
pub open spec fn spec_selected(result: CQEResult) -> Option<Selected> {
    match result.result {
        Ok(n) => if result.flags & CQE_F_BUFFER != 0 {
            Some(Selected { buffer: (result.flags >> CQE_BUFFER_SHIFT) as u16, len: n })
        } else {
            None
        },
        Err(_) => None,
    }
}

/// The buffer that a completion reports, if it succeeded and selected one.
#[verifier::when_used_as_spec(spec_selected)]
pub fn selected(result: CQEResult) -> (r: Option<Selected>)
    ensures
        r == spec_selected(result),
{
    match result.result {
        Ok(n) => match io_uring::cqueue::buffer_select(result.flags) {
            Some(buffer) => Some(Selected { buffer, len: n }),
            None => None,
        },
        Err(_) => None,
    }
}

/// The receiving of a message into a buffer of a buffer ring.
#[derive(Debug, PartialEq, Eq, Clone, Copy, Structural)]
pub struct RecvFromRing {
    /// The descriptor of the socket.
    pub fd: FdKind,
    /// The group of the buffers.
    pub bgid: u16,
}

impl RecvFromRing {
    /// The receiving of a message on the socket `fd` into a buffer of the
    /// group `bgid`.
    pub fn new(fd: FdKind, bgid: u16) -> (op: Self)
        ensures
            op == (RecvFromRing { fd, bgid }),
    {
        RecvFromRing { fd, bgid }
    }

    /// The request of the receiving. The message comes with no buffer of
    /// its own: the kernel takes one of the group.
    pub fn configure(&self) -> (s: Submission)
        ensures
            s == (Submission::RecvMsg { fd: self.fd, len: 0, buf_group: Some(self.bgid) }),
    {
        Submission::RecvMsg { fd: self.fd, len: 0, buf_group: Some(self.bgid) }
    }

    /// The buffer that a completion has taken from the ring and that
    /// nobody will use: it is to be given back to the ring.
    pub fn cleanup(&self, result: CQEResult) -> (buffer: Option<Selected>)
        ensures
            buffer == selected(result),
    {
        selected(result)
    }

    /// Turns the completion into the result: the buffer that the kernel
    /// selected, with the address `addr` of the sender, or the error. A
    /// completion that succeeded without selecting a buffer is invalid.
    pub fn complete<A>(self, result: CQEResult, addr: A) -> (out: Result<(Selected, A), Errno>)
        ensures
            out == (match result.result {
                Ok(_) => match selected(result) {
                    Some(s) => Ok::<(Selected, A), Errno>((s, addr)),
                    None => Err::<(Selected, A), Errno>(Errno { code: EINVAL }),
                },
                Err(e) => Err::<(Selected, A), Errno>(e),
            }),
    {
        match result.result {
            Ok(_) => match selected(result) {
                Some(s) => Ok((s, addr)),
                None => Err(Errno::from_raw_os_error(EINVAL)),
            },
            Err(e) => Err(e),
        }
    }
}

/// The receiving of bytes from a stream.
#[derive(Debug)]
pub struct Recv<B> {
    /// The descriptor of the socket.
    pub fd: FdKind,
    /// The buffer to receive into.
    pub buf: B,
}

impl<B> Recv<B> {
    /// The request of the receiving, for a buffer that can take `len`
    /// bytes.
    pub fn configure(&self, len: usize) -> (s: Submission)
        ensures
            s == (Submission::Recv { fd: self.fd, len: ring_len(len) }),
    {
        Submission::Recv { fd: self.fd, len: ring_len(len) }
    }

    /// Turns the completion into the result: the number of bytes received,
    /// which the caller marks as initialised in the buffer, or the error.
    /// The buffer comes back in either case.
    pub fn complete(self, result: CQEResult) -> (out: (Result<usize, Errno>, B))
        ensures
            out.0 == length_result(result),
            out.1 == self.buf,
    {
        (length_result(result), self.buf)
    }
}

/// The sending of bytes on a stream.
#[derive(Debug)]
pub struct Send<B> {
    /// The descriptor of the socket.
    pub fd: FdKind,
    /// The buffer to send.
    pub buf: B,
}

impl<B> Send<B> {
    /// The request of the sending, for a buffer with `len` initialised
    /// bytes.
    pub fn configure(&self, len: usize) -> (s: Submission)
        ensures
            s == (Submission::Send { fd: self.fd, len: ring_len(len) }),
    {
        Submission::Send { fd: self.fd, len: ring_len(len) }
    }

    /// Turns the completion into the result: the number of bytes sent, or
    /// the error. The buffer comes back in either case.
    pub fn complete(self, result: CQEResult) -> (out: (Result<usize, Errno>, B))
        ensures
            out.0 == length_result(result),
            out.1 == self.buf,
    {
        (length_result(result), self.buf)
    }
}

/// The accepting of connections.
#[derive(Debug, PartialEq, Eq, Clone, Copy, Structural)]
pub struct Accept {
    /// The descriptor of the listening socket.
    pub fd: FdKind,
    /// Whether every connection that comes is accepted, or only one.
    pub multishot: bool,
}

impl Accept {
    /// The socket of the connection that a completion reports, or the
    /// error.
    pub open spec fn accepted(result: CQEResult) -> Result<Socket, Errno> {
        match result.result {
            Ok(n) => Ok(Socket { fd: FdKind::Fd(n as i32) }),
            Err(e) => Err(e),
        }
    }

    /// Turns one completion of the accepting into its result.
    pub fn next(&self, result: CQEResult) -> (out: Result<Socket, Errno>)
        ensures
            out == Self::accepted(result),
    {
        match result.result {
            Ok(n) => Ok(Socket { fd: FdKind::Fd(#[verifier::truncate] (n as i32)) }),
            Err(e) => Err(e),
        }
    }
}

impl Operation for Accept {
    fn configure(&self) -> (s: Submission)
        ensures
            s == (Submission::Accept { fd: self.fd, multishot: self.multishot }),
    {
        Submission::Accept { fd: self.fd, multishot: self.multishot }
    }

    fn cleanup(&mut self, result: CQEResult) -> (close: Option<i32>)
        ensures
            close == descriptor(result),
            *final(self) == *old(self),
    {
        descriptor(result)
    }
}

impl Singleshot for Accept {
    type Output = Result<Socket, Errno>;

    fn complete(self, result: CQEResult) -> (out: Result<Socket, Errno>)
        ensures
            out == (Self::accepted(result)),
    {
        self.next(result)
    }
}

/// The waiting for readiness of a socket, which reports every time the
/// socket becomes ready.
#[derive(Debug, PartialEq, Eq, Clone, Copy, Structural)]
pub struct PollReady {
    /// The descriptor of the socket.
    pub fd: FdKind,
    /// The readiness to wait for.
    pub flags: u32,
}

impl Operation for PollReady {
    fn configure(&self) -> (s: Submission)
        ensures
            s == (Submission::Poll { fd: self.fd, flags: self.flags, multishot: true }),
    {
        Submission::Poll { fd: self.fd, flags: self.flags, multishot: true }
    }

    fn cleanup(&mut self, result: CQEResult) -> (close: Option<i32>)
        ensures
            close is None,
            *final(self) == *old(self),
    {
        None
    }
}

} // verus!

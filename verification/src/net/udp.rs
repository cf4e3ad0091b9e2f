//! UDP sockets.

use vstd::prelude::*;
use crate::fd::FdKind;
use crate::net::socket::{RecvFrom, RecvFromRing, SendTo, Socket};

verus! {

/// The type of a datagram socket.
pub const SOCK_DGRAM: i32 = 2;

/// A UDP socket.
///
/// After a socket was bound to an address, data can be sent to and received
/// from any other address.
#[derive(Debug)]
pub struct UdpSocket {
    inner: Socket,
}

impl View for UdpSocket {
    type V = Socket;

    closed spec fn view(&self) -> Socket {
        self.inner
    }
}

impl UdpSocket {
    /// The UDP socket of a socket that was opened and bound.
    pub fn from_socket(inner: Socket) -> (s: Self)
        ensures
            s@ == inner,
    {
        UdpSocket { inner }
    }

    /// The operation that sends a single datagram on the socket. It takes
    /// ownership of the buffer, and returns it when the operation has
    /// completed.
    pub fn send_to<B>(&self, buf: B) -> (op: SendTo<B>)
        ensures
            op == (SendTo { fd: self@.fd, buf, addressed: true }),
    {
        self.inner.send_to(buf)
    }

    /// The operation that receives a single datagram on the socket. The
    /// buffer has to be large enough for the message: bytes that do not fit
    /// may be dropped.
    pub fn recv_from<B>(&self, buf: B) -> (op: RecvFrom<B>)
        ensures
            op == (RecvFrom { fd: self@.fd, buf }),
    {
        self.inner.recv_from(buf)
    }

    /// The operation that receives a single datagram on the socket into a
    /// buffer of the group `bgid` of a buffer ring.
    pub fn recv_from_ring(&self, bgid: u16) -> (op: RecvFromRing)
        ensures
            op == (RecvFromRing { fd: self@.fd, bgid }),
    {
        self.inner.recv_from_ring(bgid)
    }

    /// Gives the socket up, and returns its descriptor, which is to be
    /// closed.
    pub fn close(self) -> (fd: FdKind)
        ensures
            fd == self@.fd,
    {
        self.inner.close()
    }
}

} // verus!

use std::collections::VecDeque;

use norn::driver::shared::Shared;
use norn::driver::status::Status;
use norn::error::{Errno, IoError, SubmitError, EAGAIN, EINVAL};
use norn::fd::FdKind;
use norn::io::WriteAll;
use norn::net::socket::{
    selected, Accept, OpenSocket, RecvFromRing, Selected, Socket, POLLIN, POLLOUT, READ_FLAGS,
    SOCK_CLOEXEC, SOCK_NONBLOCK, WRITE_FLAGS,
};
use norn::net::tcp::{IncomingPoll, ReadyPoll, ReadyStream, TcpListener, TcpStream, SOCK_STREAM};
use norn::net::udp::{UdpSocket, SOCK_DGRAM};
use norn::operation::cqe::{CQEResult, CQE_F_MORE};
use norn::operation::submission::{Operation, Singleshot, Submission};

fn ok(n: u32) -> CQEResult {
    CQEResult { result: Ok(n), flags: 0 }
}

fn err(code: i32) -> CQEResult {
    CQEResult { result: Err(Errno::from_raw_os_error(code)), flags: 0 }
}

#[test]
fn socket_constants_are_those_of_the_system() {
    assert_eq!(SOCK_NONBLOCK, libc::SOCK_NONBLOCK);
    assert_eq!(SOCK_CLOEXEC, libc::SOCK_CLOEXEC);
    assert_eq!(SOCK_STREAM, libc::SOCK_STREAM);
    assert_eq!(SOCK_DGRAM, libc::SOCK_DGRAM);
    assert_eq!(POLLIN, libc::POLLIN as u32);
    assert_eq!(POLLOUT, libc::POLLOUT as u32);
    assert_eq!(READ_FLAGS, libc::POLLIN as u32);
    assert_eq!(WRITE_FLAGS, libc::POLLOUT as u32);
}

#[test]
fn open_socket_does_not_block() {
    let mut op: OpenSocket = Socket::open(libc::AF_INET, SOCK_DGRAM, None);
    assert_eq!(
        op.configure(),
        Submission::Socket {
            domain: libc::AF_INET,
            socket_type: libc::SOCK_DGRAM | libc::SOCK_NONBLOCK | libc::SOCK_CLOEXEC,
            protocol: 0,
        }
    );
    assert_eq!(op.cleanup(ok(12)), Some(12));
    assert_eq!(op.cleanup(err(24)), None);
    assert_eq!(op.complete(ok(12)), Ok(Socket { fd: FdKind::Fd(12) }));
    let op = Socket::open(libc::AF_INET6, SOCK_STREAM, Some(6));
    match op.configure() {
        Submission::Socket { protocol, .. } => assert_eq!(protocol, 6),
        other => panic!("unexpected {:?}", other),
    }
    assert_eq!(op.complete(err(24)), Err(Errno::from_raw_os_error(24)));
}

#[test]
fn test_send_recv() {
    // Two sockets and what the kernel would do: five bytes go from the
    // first to the second.
    let s1 = UdpSocket::from_socket(Socket::from_fd(FdKind::Fd(10)));
    let s2 = UdpSocket::from_socket(Socket::from_fd(FdKind::Fd(11)));
    let s1_addr = "127.0.0.1:40001";
    let _s2_addr = "127.0.0.1:40002";

    let send = s1.send_to("hello");
    assert_eq!(
        send.configure(5),
        Submission::SendMsg { fd: FdKind::Fd(10), len: 5, addressed: true }
    );
    // The kernel takes the bytes of the message out of the buffer.
    let datagram = send.buf.as_bytes().to_vec();
    let (res, buf) = send.complete(ok(5));
    assert_eq!(res.unwrap(), 5);
    assert_eq!(buf, "hello");

    let mut recv = s2.recv_from(vec![0u8; 1024]);
    assert_eq!(
        recv.configure(1024),
        Submission::RecvMsg { fd: FdKind::Fd(11), len: 1024, buf_group: None }
    );
    // The kernel writes them into the buffer of the receiver, and completes.
    recv.buf[..datagram.len()].copy_from_slice(&datagram);
    let (res, buf) = recv.complete(ok(datagram.len() as u32), s1_addr);
    let (n, addr) = res.unwrap();
    assert_eq!(addr, s1_addr);
    assert_eq!(n, 5);
    assert_eq!(&buf[..n], b"hello");
    assert_eq!(buf.len(), 1024);
    assert_eq!(s1.close(), FdKind::Fd(10));
}

#[test]
fn test_send_recv_ring() {
    let s1 = UdpSocket::from_socket(Socket::from_fd(FdKind::Fd(10)));
    let s2 = UdpSocket::from_socket(Socket::from_fd(FdKind::Fd(11)));
    let s1_addr = "127.0.0.1:40001";

    let (res, _) = s1.send_to("hello").complete(ok(5));
    assert_eq!(res, Ok(5));

    let recv: RecvFromRing = s2.recv_from_ring(7);
    assert_eq!(
        recv.configure(),
        Submission::RecvMsg { fd: FdKind::Fd(11), len: 0, buf_group: Some(7) }
    );
    // The kernel has selected buffer 3 of the group.
    let cqe = CQEResult { result: Ok(5), flags: (3 << 16) | 1 };
    let (buf, addr) = recv.complete(cqe, s1_addr).unwrap();
    assert_eq!(addr, s1_addr);
    assert_eq!(buf, Selected { buffer: 3, len: 5 });
}

#[test]
fn messages_without_an_address() {
    let op = norn::net::socket::SendTo::new(FdKind::Fixed(2), vec![1u8, 2], false);
    assert_eq!(
        op.configure(2),
        Submission::SendMsg { fd: FdKind::Fixed(2), len: 2, addressed: false }
    );
}

#[test]
fn ring_buffers_are_selected_by_the_flags() {
    for flags in [0u32, 1, 2, 3, 0x0005_0001, 0xffff_0001, 0xffff_0000, u32::MAX] {
        let cqe = CQEResult { result: Ok(9), flags };
        let expected =
            io_uring::cqueue::buffer_select(flags).map(|buffer| Selected { buffer, len: 9 });
        assert_eq!(selected(cqe), expected);
    }
    assert_eq!(selected(CQEResult { result: Ok(9), flags: 0x0005_0001 }).unwrap().buffer, 5);
    assert_eq!(selected(err(105)), None);
    let recv = RecvFromRing::new(FdKind::Fd(1), 2);
    assert_eq!(recv.cleanup(CQEResult { result: Ok(1), flags: 0x0002_0001 }).unwrap().buffer, 2);
    // A completion without a buffer is invalid; an error is handed on.
    assert_eq!(recv.complete(ok(5), ()), Err(Errno::from_raw_os_error(EINVAL)));
    assert_eq!(recv.complete(err(105), ()), Err(Errno::from_raw_os_error(105)));
}

#[test]
fn recv_from_hands_the_buffer_back_on_error() {
    let socket = UdpSocket::from_socket(Socket::from_fd(FdKind::Fixed(2)));
    let recv = socket.recv_from(vec![7u8; 3]);
    let (res, buf) = recv.complete(err(11), 0u8);
    assert_eq!(res, Err(Errno::from_raw_os_error(11)));
    assert_eq!(buf, vec![7u8; 3]);
}

/// Polls the stream of connections until it waits or yields.
fn poll_incoming(
    incoming: &mut norn::net::tcp::Incoming,
    shared: &mut Shared<u32>,
    pushed: &mut Vec<(u64, Submission)>,
) -> IncomingPoll {
    loop {
        match incoming.poll_next(shared, false, 1).0 {
            IncomingPoll::Push(tag, submission) => pushed.push((tag, submission)),
            other => return other,
        }
    }
}

#[test]
fn incoming_connections() {
    let listener = TcpListener::from_socket(Socket::from_fd(FdKind::Fd(4)));
    assert_eq!(listener.accept(), Accept { fd: FdKind::Fd(4), multishot: false });
    let mut incoming = listener.incoming();
    let mut shared: Shared<u32> = Shared::new();
    let mut pushed = Vec::new();

    assert!(matches!(poll_incoming(&mut incoming, &mut shared, &mut pushed), IncomingPoll::Pending));
    // One request accepts all connections.
    assert_eq!(pushed.len(), 1);
    let (tag, submission) = pushed[0];
    assert_eq!(submission, Submission::Accept { fd: FdKind::Fd(4), multishot: true });

    // Three connections come in.
    for fd in [20, 21, 22] {
        let d = shared.deliver(tag, fd, CQE_F_MORE);
        assert!(!d.cleanup);
    }
    for fd in [20, 21, 22] {
        match poll_incoming(&mut incoming, &mut shared, &mut pushed) {
            IncomingPoll::Ready(Some(Ok(stream))) => assert_eq!(stream.close(), FdKind::Fd(fd)),
            other => panic!("unexpected {:?}", other),
        }
    }
    assert!(matches!(poll_incoming(&mut incoming, &mut shared, &mut pushed), IncomingPoll::Pending));
    assert_eq!(pushed.len(), 1);

    // An error ends the request; the next poll starts a new one.
    let _ = shared.deliver(tag, -24, 0);
    match poll_incoming(&mut incoming, &mut shared, &mut pushed) {
        IncomingPoll::Ready(Some(Err(e))) => {
            assert_eq!(e, IoError::Os(Errno::from_raw_os_error(24)))
        }
        other => panic!("unexpected {:?}", other),
    }
    assert!(!shared.has_record(tag));
    assert!(matches!(poll_incoming(&mut incoming, &mut shared, &mut pushed), IncomingPoll::Pending));
    assert_eq!(pushed.len(), 2);
    assert_ne!(pushed[1].0, tag);
    assert_eq!(listener.close(), FdKind::Fd(4));
}

#[test]
fn incoming_ends_when_the_kernel_ends_the_request() {
    let listener = TcpListener::from_socket(Socket::from_fd(FdKind::Fd(4)));
    let mut incoming = listener.incoming();
    let mut shared: Shared<u32> = Shared::new();
    let mut pushed = Vec::new();
    assert!(matches!(poll_incoming(&mut incoming, &mut shared, &mut pushed), IncomingPoll::Pending));
    let tag = pushed[0].0;
    let _ = shared.deliver(tag, 30, 0);
    assert!(matches!(
        poll_incoming(&mut incoming, &mut shared, &mut pushed),
        IncomingPoll::Ready(Some(Ok(_)))
    ));
    let (poll, ended) = incoming.poll_next(&mut shared, false, 1);
    assert!(matches!(poll, IncomingPoll::Ready(None)));
    assert!(ended.unwrap().released.freed);
}

#[test]
fn split_halves_are_ready_at_first() {
    let stream = TcpStream::from_socket(Socket::from_fd(FdKind::Fd(9)));
    let (mut reader, mut writer) = stream.split();
    assert_eq!(reader.flags(), READ_FLAGS);
    assert_eq!(writer.flags(), WRITE_FLAGS);
    let mut shared: Shared<u32> = Shared::new();
    let (poll, ended) = reader.ready().poll_ready(&mut shared, false, 1, READ_FLAGS);
    assert_eq!(poll, ReadyPoll::Ready(Ok(())));
    assert!(ended.is_none());
    let (poll, _) = writer.ready().poll_ready(&mut shared, false, 1, WRITE_FLAGS);
    assert_eq!(poll, ReadyPoll::Ready(Ok(())));
    // No request was made for that.
    assert_eq!(shared.records(), 0);
}

#[test]
fn ready_stream_waits_after_a_call_that_would_block() {
    let mut stream = ReadyStream::new(Socket::from_fd(FdKind::Fd(9)));
    let mut shared: Shared<u32> = Shared::new();
    // The system call succeeds: that is the result.
    assert_eq!(stream.poll_op(Ok(5usize)), Some(Ok(5)));
    // Another error is the result as well.
    assert_eq!(stream.poll_op::<usize>(Err(Errno { code: 104 })), Some(Err(Errno { code: 104 })));
    // The call would block: wait for readiness.
    assert_eq!(stream.poll_op::<usize>(Err(Errno::from_raw_os_error(EAGAIN))), None);
    let (poll, _) = stream.poll_ready(&mut shared, false, 1, READ_FLAGS);
    let tag = match poll {
        ReadyPoll::Push(tag, submission) => {
            assert_eq!(
                submission,
                Submission::Poll { fd: FdKind::Fd(9), flags: READ_FLAGS, multishot: true }
            );
            tag
        }
        other => panic!("unexpected {:?}", other),
    };
    assert_eq!(stream.poll_ready(&mut shared, false, 1, READ_FLAGS).0, ReadyPoll::Pending);
    // The kernel reports readiness, and that more will follow.
    let d = shared.deliver(tag, 1, CQE_F_MORE);
    assert_eq!(d.wake, Some(1));
    assert_eq!(stream.poll_ready(&mut shared, false, 1, READ_FLAGS).0, ReadyPoll::Ready(Ok(())));
    assert_eq!(stream.poll_ready(&mut shared, false, 1, READ_FLAGS).0, ReadyPoll::Ready(Ok(())));
    // The kernel ends the request: the stream starts a new one.
    assert_eq!(stream.poll_op::<usize>(Err(Errno::from_raw_os_error(EAGAIN))), None);
    let _ = shared.deliver(tag, 1, 0);
    assert_eq!(stream.poll_ready(&mut shared, false, 1, READ_FLAGS).0, ReadyPoll::Ready(Ok(())));
    assert_eq!(stream.poll_op::<usize>(Err(Errno::from_raw_os_error(EAGAIN))), None);
    let (poll, ended) = stream.poll_ready(&mut shared, false, 1, READ_FLAGS);
    assert_eq!(poll, ReadyPoll::Again);
    assert!(ended.unwrap().released.freed);
    assert!(matches!(
        stream.poll_ready(&mut shared, false, 1, READ_FLAGS).0,
        ReadyPoll::Push(_, _)
    ));
}

#[test]
fn ready_stream_hands_out_errors() {
    let mut stream = ReadyStream::new(Socket::from_fd(FdKind::Fd(9)));
    let mut shared: Shared<u32> = Shared::new();
    assert_eq!(stream.poll_op::<()>(Err(Errno::from_raw_os_error(EAGAIN))), None);
    let tag = match stream.poll_ready(&mut shared, false, 1, WRITE_FLAGS).0 {
        ReadyPoll::Push(tag, _) => tag,
        other => panic!("unexpected {:?}", other),
    };
    let _ = shared.deliver(tag, -9, 0);
    assert_eq!(
        stream.poll_ready(&mut shared, false, 1, WRITE_FLAGS).0,
        ReadyPoll::Ready(Err(IoError::Os(Errno::from_raw_os_error(9))))
    );
}

/// A connection without a kernel: what one side sends, the other receives.
struct Pipe {
    bytes: VecDeque<u8>,
    chunk: usize,
}

impl Pipe {
    /// The kernel takes up to a chunk of the bytes out of the buffer.
    fn send(&mut self, data: &[u8]) -> CQEResult {
        let n = data.len().min(self.chunk);
        self.bytes.extend(&data[..n]);
        ok(n as u32)
    }

    /// The kernel writes what has arrived into the buffer.
    fn recv(&mut self, buf: &mut [u8]) -> CQEResult {
        let n = buf.len().min(self.bytes.len());
        for (slot, byte) in buf.iter_mut().zip(self.bytes.drain(..n)) {
            *slot = byte;
        }
        ok(n as u32)
    }
}

fn write_all(socket: Socket, pipe: &mut Pipe, data: Vec<u8>) -> (Result<usize, Errno>, Vec<u8>) {
    let len = data.len();
    let mut all = WriteAll::new(data, len);
    loop {
        let Some((offset, len, buf)) = all.next() else {
            panic!("write_all is over without a result");
        };
        let send = socket.send(buf);
        let cqe = pipe.send(&send.buf[offset..offset + len]);
        let (res, buf) = send.complete(cqe);
        if let Some(result) = all.advance(res, buf) {
            return result;
        }
    }
}

#[test]
fn echo() {
    let client = Socket::from_fd(FdKind::Fd(40));
    let server = Socket::from_fd(FdKind::Fd(41));
    let mut to_server = Pipe { bytes: VecDeque::new(), chunk: 100 };
    let mut to_client = Pipe { bytes: VecDeque::new(), chunk: 64 };

    let message: Vec<u8> = b"hello".iter().copied().cycle().take(128 * 5).collect();
    assert_eq!(message.len(), 640);
    let (res, buf) = write_all(client, &mut to_server, message.clone());
    assert_eq!(res, Ok(640));
    assert_eq!(buf, message);

    // The server copies what it reads to what it writes.
    let mut buf = vec![0u8; 1024];
    loop {
        let mut recv = server.recv(buf);
        let cqe = to_server.recv(&mut recv.buf);
        let (res, b) = recv.complete(cqe);
        buf = b;
        let n = res.unwrap();
        if n == 0 {
            break;
        }
        let (res, _) = write_all(server, &mut to_client, buf[..n].to_vec());
        assert_eq!(res, Ok(n));
    }

    let mut echoed = Vec::new();
    while echoed.len() < 640 {
        let mut recv = client.recv(vec![0u8; 640 - echoed.len()]);
        let cqe = to_client.recv(&mut recv.buf);
        let (res, buf) = recv.complete(cqe);
        let n = res.unwrap();
        echoed.extend_from_slice(&buf[..n]);
    }
    assert_eq!(echoed, message);
}

#[test]
fn streams_fail_when_the_driver_is_not_running() {
    let mut shared: Shared<u32> = Shared::new();
    let _ = shared.set_status(Status::Draining);
    let listener = TcpListener::from_socket(Socket::from_fd(FdKind::Fd(4)));
    let mut incoming = listener.incoming();
    let (poll, ended) = incoming.poll_next(&mut shared, false, 1);
    match poll {
        IncomingPoll::Ready(Some(Err(e))) => {
            assert_eq!(e, IoError::Submit(SubmitError::shutting_down()))
        }
        other => panic!("unexpected {:?}", other),
    }
    // The record that was made for the request is freed again.
    assert!(ended.unwrap().released.freed);
    assert_eq!(shared.records(), 0);

    let mut stream = ReadyStream::new(Socket::from_fd(FdKind::Fd(9)));
    assert_eq!(stream.poll_op::<()>(Err(Errno::from_raw_os_error(EAGAIN))), None);
    let (poll, _) = stream.poll_ready(&mut shared, false, 1, READ_FLAGS);
    assert_eq!(poll, ReadyPoll::Ready(Err(IoError::Submit(SubmitError::shutting_down()))));
}

use norn::error::{Errno, EINVAL};
use norn::fd::FdKind;
use norn::fs::file::{
    descriptor, length_result, unit_result, File, Open, ReadAt, WriteAt, FALLOC_FL_KEEP_SIZE,
    FALLOC_FL_PUNCH_HOLE, FALLOC_FL_ZERO_RANGE,
};
use norn::fs::opts::{
    OpenOptions, AT_FDCWD, O_APPEND, O_CLOEXEC, O_CREAT, O_EXCL, O_RDONLY, O_RDWR, O_TRUNC,
    O_WRONLY,
};
use norn::operation::cqe::CQEResult;
use norn::operation::submission::{Operation, Singleshot, Submission};

fn ok(n: u32) -> CQEResult {
    CQEResult { result: Ok(n), flags: 0 }
}

fn err(code: i32) -> CQEResult {
    CQEResult { result: Err(Errno::from_raw_os_error(code)), flags: 0 }
}

#[test]
fn flags_are_those_of_the_system() {
    assert_eq!(O_RDONLY, libc::O_RDONLY);
    assert_eq!(O_WRONLY, libc::O_WRONLY);
    assert_eq!(O_RDWR, libc::O_RDWR);
    assert_eq!(O_CREAT, libc::O_CREAT);
    assert_eq!(O_EXCL, libc::O_EXCL);
    assert_eq!(O_TRUNC, libc::O_TRUNC);
    assert_eq!(O_APPEND, libc::O_APPEND);
    assert_eq!(O_CLOEXEC, libc::O_CLOEXEC);
    assert_eq!(AT_FDCWD, libc::AT_FDCWD);
    assert_eq!(FALLOC_FL_KEEP_SIZE, libc::FALLOC_FL_KEEP_SIZE);
    assert_eq!(FALLOC_FL_PUNCH_HOLE, libc::FALLOC_FL_PUNCH_HOLE);
    assert_eq!(FALLOC_FL_ZERO_RANGE, libc::FALLOC_FL_ZERO_RANGE);
}

#[test]
fn access_modes() {
    let mut opts = File::with_options();
    assert_eq!(opts, OpenOptions::new());
    assert_eq!(opts.get_access_mode(), Err(Errno::from_raw_os_error(EINVAL)));
    opts.read(true);
    assert_eq!(opts.get_access_mode(), Ok(O_RDONLY));
    opts.write(true);
    assert_eq!(opts.get_access_mode(), Ok(O_RDWR));
    opts.read(false);
    assert_eq!(opts.get_access_mode(), Ok(O_WRONLY));
    opts.append(true);
    assert_eq!(opts.get_access_mode(), Ok(O_WRONLY | O_APPEND));
    opts.write(false);
    assert_eq!(opts.get_access_mode(), Ok(O_WRONLY | O_APPEND));
    opts.read(true);
    assert_eq!(opts.get_access_mode(), Ok(O_RDWR | O_APPEND));
}

#[test]
fn creation_modes() {
    let mut opts = OpenOptions::new();
    opts.write(true);
    assert_eq!(opts.get_creation_mode(), Ok(0));
    opts.create(true);
    assert_eq!(opts.get_creation_mode(), Ok(O_CREAT));
    opts.truncate(true);
    assert_eq!(opts.get_creation_mode(), Ok(O_CREAT | O_TRUNC));
    opts.create(false);
    assert_eq!(opts.get_creation_mode(), Ok(O_TRUNC));
    opts.create_new(true);
    assert_eq!(opts.get_creation_mode(), Ok(O_CREAT | O_EXCL));

    // Creating and truncating need write access.
    let mut opts = OpenOptions::new();
    opts.read(true);
    assert_eq!(opts.get_creation_mode(), Ok(0));
    opts.create(true);
    assert_eq!(opts.get_creation_mode(), Err(Errno::from_raw_os_error(EINVAL)));
    // Truncating does not go with appending.
    let mut opts = OpenOptions::new();
    opts.append(true);
    opts.truncate(true);
    assert_eq!(opts.get_creation_mode(), Err(Errno::from_raw_os_error(EINVAL)));
    opts.create_new(true);
    assert_eq!(opts.get_creation_mode(), Ok(O_CREAT | O_EXCL));
}

#[test]
fn open_combines_the_flags() {
    let open = File::open(b"/tmp/file").ok().unwrap();
    assert_eq!(open.path, b"/tmp/file".to_vec());
    assert_eq!(
        open.configure(),
        Submission::OpenAt { dirfd: -100, flags: O_RDONLY | O_CLOEXEC }
    );
    let mut opts = File::with_options();
    opts.write(true);
    opts.create(true);
    opts.truncate(true);
    let open = File::open_with_options(b"log", opts).ok().unwrap();
    assert_eq!(
        open.configure(),
        Submission::OpenAt { dirfd: AT_FDCWD, flags: 0x1 | 0x40 | 0x200 | 0x80000 }
    );
}

#[test]
fn open_rejects_paths_that_are_not_utf8() {
    assert_eq!(File::open(&[0xFF]).err(), Some(Errno::from_raw_os_error(EINVAL)));
    assert_eq!(File::open(b"dir/\xC3").err(), Some(Errno::from_raw_os_error(EINVAL)));
    // An overlong encoding and a surrogate are no UTF-8 either.
    assert_eq!(Open::new(&[0xC0, 0x80], 0, 0).err(), Some(Errno { code: 22 }));
    assert_eq!(Open::new(&[0xED, 0xA0, 0x80], 0, 0).err(), Some(Errno { code: 22 }));
    // Valid UTF-8 of every width is taken as it is.
    let path = "dir/h\u{e9}llo/\u{4e16}\u{754c}/\u{1f980}";
    let open = File::open(path.as_bytes()).ok().unwrap();
    assert_eq!(open.path, path.as_bytes().to_vec());
    // A zero byte is refused in a valid string as well.
    assert_eq!(File::open("h\u{e9}\0".as_bytes()).err(), Some(Errno::from_raw_os_error(EINVAL)));
}

#[test]
fn open_rejects_invalid_paths_and_options() {
    assert_eq!(File::open(b"a\0b").err(), Some(Errno::from_raw_os_error(EINVAL)));
    assert_eq!(Open::new(b"\0", 0, 0).err(), Some(Errno { code: 22 }));
    assert!(Open::new(b"", 0, 0).is_ok());
    let opts = OpenOptions::new();
    assert_eq!(File::open_with_options(b"x", opts).err(), Some(Errno::from_raw_os_error(EINVAL)));
    let mut opts = OpenOptions::new();
    opts.read(true);
    opts.truncate(true);
    assert_eq!(File::open_with_options(b"x", opts).err(), Some(Errno::from_raw_os_error(EINVAL)));
}

#[test]
fn open_completes_with_the_file() {
    let open = File::open(b"f").ok().unwrap();
    let file = open.complete(ok(9)).ok().unwrap();
    assert_eq!(file.fd, FdKind::Fd(9));
    assert_eq!(file.close(), FdKind::Fd(9));
    let open = File::open(b"f").ok().unwrap();
    assert_eq!(open.complete(err(2)).err(), Some(Errno::from_raw_os_error(2)));
    // A descriptor that nobody takes is to be closed.
    let mut open = File::open(b"f").ok().unwrap();
    assert_eq!(open.cleanup(ok(11)), Some(11));
    assert_eq!(open.cleanup(err(2)), None);
}

#[test]
fn read_and_write_hand_the_buffer_back() {
    let file = File::from_fd(FdKind::Fd(3));
    let buf = vec![1u8, 2, 3];
    let read: ReadAt<Vec<u8>> = file.read_at(buf, 64);
    assert_eq!(read.configure(4096), Submission::Read { fd: FdKind::Fd(3), len: 4096, offset: 64 });
    let (res, buf) = read.complete(ok(2));
    assert_eq!(res, Ok(2));
    assert_eq!(buf, vec![1, 2, 3]);
    let read = ReadAt::new(FdKind::Fixed(1), buf, 0);
    let (res, buf) = read.complete(err(5));
    assert_eq!(res, Err(Errno::from_raw_os_error(5)));
    assert_eq!(buf, vec![1, 2, 3]);

    let write: WriteAt<&'static [u8]> = file.write_at(b"hello", 7);
    assert_eq!(write.configure(5), Submission::Write { fd: FdKind::Fd(3), len: 5, offset: 7 });
    let (res, buf) = write.complete(ok(5));
    assert_eq!(res, Ok(5));
    assert_eq!(buf, b"hello");
    let write = WriteAt::new(FdKind::Fd(3), String::from("x"), 0);
    let (res, buf) = write.complete(err(28));
    assert_eq!(res, Err(Errno::from_raw_os_error(28)));
    assert_eq!(buf, "x");
}

#[test]
fn sync_and_fallocate() {
    let file = File::from_fd(FdKind::Fd(3));
    assert_eq!(file.sync().configure(), Submission::Fsync { fd: FdKind::Fd(3), datasync: false });
    assert_eq!(file.datasync().configure(), Submission::Fsync { fd: FdKind::Fd(3), datasync: true });
    assert_eq!(file.sync().complete(ok(0)), Ok(()));
    assert_eq!(file.sync().complete(err(5)), Err(Errno::from_raw_os_error(5)));
    assert_eq!(
        file.sync_range(10, 20, 6).configure(),
        Submission::SyncFileRange { fd: FdKind::Fd(3), len: 20, offset: 10, flags: 6 }
    );
    assert_eq!(file.sync_range(10, 20, 6).complete(ok(0)), Ok(()));
    assert_eq!(
        file.fallocate(1, 2, 3).configure(),
        Submission::Fallocate { fd: FdKind::Fd(3), len: 2, offset: 1, mode: 3 }
    );
    assert_eq!(file.allocate(0, 4096).mode, 0x10 | 0x01);
    assert_eq!(file.discard(0, 4096).mode, 0x02 | 0x01);
    assert_eq!(file.discard(8, 16).complete(err(95)), Err(Errno::from_raw_os_error(95)));
    let mut sync = file.sync();
    assert_eq!(sync.cleanup(ok(0)), None);
}

#[test]
fn completion_results() {
    assert_eq!(length_result(ok(640)), Ok(640));
    assert_eq!(length_result(err(4)), Err(Errno::from_raw_os_error(4)));
    assert_eq!(unit_result(ok(7)), Ok(()));
    assert_eq!(unit_result(err(4)), Err(Errno::from_raw_os_error(4)));
    assert_eq!(descriptor(ok(7)), Some(7));
    assert_eq!(descriptor(err(4)), None);
}

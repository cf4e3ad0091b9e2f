//! Files, and the operations on them.

use vstd::prelude::*;
use vstd::string::StringSliceAdditionalSpecFns;
use crate::error::{Errno, EINVAL};
use crate::fd::FdKind;
use crate::fs::opts::{OpenOptions, AT_FDCWD, O_CLOEXEC};
use crate::operation::cqe::CQEResult;
use crate::operation::submission::{ring_len, Operation, Singleshot, Submission};

verus! {

/// Keep the length of the file as it is.
pub const FALLOC_FL_KEEP_SIZE: i32 = 0x01;

/// Give the range back to the filesystem.
pub const FALLOC_FL_PUNCH_HOLE: i32 = 0x02;

/// Fill the range with zeroes.
pub const FALLOC_FL_ZERO_RANGE: i32 = 0x10;

/// The success value of a completion, as a length.
pub open spec fn spec_length(n: u32) -> usize {
    n as usize
}

/// The success value of a completion, as a length.
#[verifier::when_used_as_spec(spec_length)]
pub fn length(n: u32) -> (r: usize)
    ensures
        r == spec_length(n),
{
    n as usize
}

/// The result of a completion that carries a length.
pub open spec fn spec_length_result(result: CQEResult) -> Result<usize, Errno> {
    match result.result {
        Ok(n) => Ok(length(n)),
        Err(e) => Err(e),
    }
}

/// The result of a completion that carries a length.
#[verifier::when_used_as_spec(spec_length_result)]
pub fn length_result(result: CQEResult) -> (r: Result<usize, Errno>)
    ensures
        r == spec_length_result(result),
{
    match result.result {
        Ok(n) => Ok(length(n)),
        Err(e) => Err(e),
    }
}

/// The result of a completion that carries nothing but success.
pub open spec fn spec_unit_result(result: CQEResult) -> Result<(), Errno> {
    match result.result {
        Ok(_) => Ok(()),
        Err(e) => Err(e),
    }
}

/// The result of a completion that carries nothing but success.
#[verifier::when_used_as_spec(spec_unit_result)]
pub fn unit_result(result: CQEResult) -> (r: Result<(), Errno>)
    ensures
        r == spec_unit_result(result),
{
    match result.result {
        Ok(_) => Ok(()),
        Err(e) => Err(e),
    }
}

/// The descriptor that a completion carries, if it succeeded.
pub open spec fn spec_descriptor(result: CQEResult) -> Option<i32> {
    match result.result {
        Ok(n) => Some(n as i32),
        Err(_) => None,
    }
}

/// The descriptor that a completion carries, if it succeeded.
#[verifier::when_used_as_spec(spec_descriptor)]
pub fn descriptor(result: CQEResult) -> (r: Option<i32>)
    ensures
        r == spec_descriptor(result),
{
    match result.result {
        Ok(n) => Some(#[verifier::truncate] (n as i32)),
        Err(_) => None,
    }
}

/// A reference to an open file on the filesystem.
#[derive(Debug)]
pub struct File {
    /// The descriptor of the file.
    pub fd: FdKind,
}

impl File {
    /// Returns a new set of options, with which a file can be opened.
    pub fn with_options() -> (o: OpenOptions)
        ensures
            o == OpenOptions::new(),
    {
        OpenOptions::new()
    }

    /// The operation that opens the file at `path` with the given options.
    /// It fails for options that are invalid, and for a path that cannot be
    /// handed to the kernel.
    pub fn open_with_options(path: &[u8], opts: OpenOptions) -> (r: Result<Open, Errno>)
        ensures
            match (opts.access_mode(), opts.creation_mode()) {
                (Ok(access), Ok(creation)) => Open::is_new(r, path@, access, creation),
                (Err(e), _) => r == Err::<Open, Errno>(e),
                (_, Err(e)) => r == Err::<Open, Errno>(e),
            },
    {
        let access_mode = match opts.get_access_mode() {
            Ok(m) => m,
            Err(e) => {
                return Err(e);
            },
        };
        let creation_mode = match opts.get_creation_mode() {
            Ok(m) => m,
            Err(e) => {
                return Err(e);
            },
        };
        Open::new(path, access_mode, creation_mode)
    }

    /// The operation that opens the file at `path` for reading.
    pub fn open(path: &[u8]) -> (r: Result<Open, Errno>)
        ensures
            Open::is_new(r, path@, crate::fs::opts::O_RDONLY, 0),
    {
        let mut opts = OpenOptions::new();
        opts.read(true);
        assert(opts.access_mode() == Ok::<i32, Errno>(crate::fs::opts::O_RDONLY));
        Self::open_with_options(path, opts)
    }

    /// The file of a descriptor that was opened.
    pub fn from_fd(fd: FdKind) -> (f: File)
        ensures
            f.fd == fd,
    {
        File { fd }
    }

    /// The operation that reads bytes from the file into `buf`, starting at
    /// `offset`.
    pub fn read_at<B>(&self, buf: B, offset: u64) -> (op: ReadAt<B>)
        ensures
            op == (ReadAt { fd: self.fd, buf, offset }),
    {
        ReadAt::new(self.fd, buf, offset)
    }

    /// The operation that writes `buf` to the file, starting at `offset`.
    pub fn write_at<B>(&self, buf: B, offset: u64) -> (op: WriteAt<B>)
        ensures
            op == (WriteAt { fd: self.fd, buf, offset }),
    {
        WriteAt::new(self.fd, buf, offset)
    }

    /// The operation that flushes the file and its metadata to disk.
    pub fn sync(&self) -> (op: Sync)
        ensures
            op == (Sync { fd: self.fd, datasync: false }),
    {
        Sync::new(self.fd, false)
    }

    /// The operation that flushes only the data of the file to disk.
    pub fn datasync(&self) -> (op: Sync)
        ensures
            op == (Sync { fd: self.fd, datasync: true }),
    {
        Sync::new(self.fd, true)
    }

    /// The operation that flushes a range of the file.
    pub fn sync_range(&self, offset: u64, len: u32, flags: u32) -> (op: SyncRange)
        ensures
            op == (SyncRange { fd: self.fd, offset, len, flags }),
    {
        SyncRange::new(self.fd, offset, len, flags)
    }

    /// The operation that calls `fallocate` on the file.
    pub fn fallocate(&self, offset: u64, len: u64, mode: i32) -> (op: Fallocate)
        ensures
            op == (Fallocate { fd: self.fd, offset, len, mode }),
    {
        Fallocate::new(self.fd, offset, len, mode)
    }

    /// The operation that allocates space in the file without changing its
    /// length: the range is filled with zeroes, and the size is kept.
    pub fn allocate(&self, offset: u64, len: u64) -> (op: Fallocate)
        ensures
            op == (Fallocate {
                fd: self.fd,
                offset,
                len,
                mode: FALLOC_FL_ZERO_RANGE | FALLOC_FL_KEEP_SIZE,
            }),
    {
        self.fallocate(offset, len, FALLOC_FL_ZERO_RANGE | FALLOC_FL_KEEP_SIZE)
    }

    /// The operation that punches a hole into the file: the range is given
    /// back to the filesystem, and the size is kept.
    pub fn discard(&self, offset: u64, len: u64) -> (op: Fallocate)
        ensures
            op == (Fallocate {
                fd: self.fd,
                offset,
                len,
                mode: FALLOC_FL_PUNCH_HOLE | FALLOC_FL_KEEP_SIZE,
            }),
    {
        self.fallocate(offset, len, FALLOC_FL_PUNCH_HOLE | FALLOC_FL_KEEP_SIZE)
    }

    /// Gives the file up, and returns its descriptor, which is to be
    /// closed.
    pub fn close(self) -> (fd: FdKind)
        ensures
            fd == self.fd,
    {
        self.fd
    }
}

/// Whether a path can be handed to the kernel: its bytes are valid UTF-8,
/// and none of them is zero.
pub open spec fn valid_path(path: Seq<u8>) -> bool {
    &&& vstd::utf8::valid_utf8(path)
    &&& forall|i: int| 0 <= i < path.len() ==> path[i] != 0
}

/// `core::str::from_utf8`: the bytes as a string slice, which they are
/// exactly if they are valid UTF-8; the string slice is made of the same
/// bytes.
#[verifier::external_body]
fn from_utf8(bytes: &[u8]) -> (text: Option<&str>)
    ensures
        text is Some <==> vstd::utf8::valid_utf8(bytes@),
        text matches Some(s) ==> s.spec_bytes() == bytes@,
{
    core::str::from_utf8(bytes).ok()
}

/// The opening of a file.
#[derive(Debug)]
pub struct Open {
    /// The path: valid UTF-8, without a zero byte.
    pub path: Vec<u8>,
    /// The access mode.
    pub access_mode: i32,
    /// The creation mode.
    pub creation_mode: i32,
}

impl Open {
    /// Whether `r` is the opening of the file at `path` with the given
    /// modes, or the error for a path that cannot be handed to the kernel.
    pub open spec fn is_new(
        r: Result<Open, Errno>,
        path: Seq<u8>,
        access_mode: i32,
        creation_mode: i32,
    ) -> bool {
        match r {
            Ok(open) => valid_path(path) && open.path@ == path && open.access_mode == access_mode
                && open.creation_mode == creation_mode,
            Err(e) => !valid_path(path) && e == (Errno { code: EINVAL }),
        }
    }

    /// The opening of the file at `path` with the given modes. A path that
    /// is not valid UTF-8, or that holds a zero byte, is invalid.
    pub fn new(path: &[u8], access_mode: i32, creation_mode: i32) -> (r: Result<Open, Errno>)
        ensures
            Open::is_new(r, path@, access_mode, creation_mode),
    {
        if from_utf8(path).is_none() {
            return Err(Errno::from_raw_os_error(EINVAL));
        }
        let mut copy: Vec<u8> = Vec::new();
        let mut i: usize = 0;
        while i < path.len()
            invariant
                i <= path.len(),
                vstd::utf8::valid_utf8(path@),
                copy@ == path@.take(i as int),
                forall|j: int| 0 <= j < i ==> path@[j] != 0,
            decreases path.len() - i,
        {
            if path[i] == 0 {
                return Err(Errno::from_raw_os_error(EINVAL));
            }
            copy.push(path[i]);
            proof {
                assert(path@.take(i as int).push(path@[i as int]) =~= path@.take(i + 1));
            }
            i = i + 1;
        }
        proof {
            assert(path@.take(i as int) =~= path@);
        }
        Ok(Open { path: copy, access_mode, creation_mode })
    }
}

impl Operation for Open {
    fn configure(&self) -> (s: Submission)
        ensures
            s == (Submission::OpenAt {
                dirfd: AT_FDCWD,
                flags: self.access_mode | self.creation_mode | O_CLOEXEC,
            }),
    {
        Submission::OpenAt {
            dirfd: AT_FDCWD,
            flags: self.access_mode | self.creation_mode | O_CLOEXEC,
        }
    }

    fn cleanup(&mut self, result: CQEResult) -> (close: Option<i32>)
        ensures
            close == descriptor(result),
            *final(self) == *old(self),
    {
        descriptor(result)
    }
}

impl Singleshot for Open {
    type Output = Result<File, Errno>;

    fn complete(self, result: CQEResult) -> (out: Result<File, Errno>)
        ensures
            out == (match result.result {
                Ok(n) => Ok(File { fd: FdKind::Fd(n as i32) }),
                Err(e) => Err(e),
            }),
    {
        match result.result {
            Ok(n) => Ok(File { fd: FdKind::Fd(#[verifier::truncate] (n as i32)) }),
            Err(e) => Err(e),
        }
    }
}

/// A read at an offset of a file.
#[derive(Debug)]
pub struct ReadAt<B> {
    /// The descriptor of the file.
    pub fd: FdKind,
    /// The buffer to read into.
    pub buf: B,
    /// The offset in the file.
    pub offset: u64,
}

impl<B> ReadAt<B> {
    /// The read of the file `fd` at `offset` into `buf`.
    pub fn new(fd: FdKind, buf: B, offset: u64) -> (op: Self)
        ensures
            op == (ReadAt { fd, buf, offset }),
    {
        ReadAt { fd, buf, offset }
    }

    /// The request of the read, for a buffer that can take `len` bytes.
    pub fn configure(&self, len: usize) -> (s: Submission)
        ensures
            s == (Submission::Read { fd: self.fd, len: ring_len(len), offset: self.offset }),
    {
        Submission::Read { fd: self.fd, len: ring_len(len), offset: self.offset }
    }

    /// Turns the completion of the read into its result: the number of
    /// bytes read, which the caller marks as initialised in the buffer, or
    /// the error. The buffer comes back in either case.
    pub fn complete(self, result: CQEResult) -> (out: (Result<usize, Errno>, B))
        ensures
            out.0 == length_result(result),
            out.1 == self.buf,
    {
        (length_result(result), self.buf)
    }
}

/// A write at an offset of a file.
#[derive(Debug)]
pub struct WriteAt<B> {
    /// The descriptor of the file.
    pub fd: FdKind,
    /// The buffer to write.
    pub buf: B,
    /// The offset in the file.
    pub offset: u64,
}

impl<B> WriteAt<B> {
    /// The write of `buf` to the file `fd` at `offset`.
    pub fn new(fd: FdKind, buf: B, offset: u64) -> (op: Self)
        ensures
            op == (WriteAt { fd, buf, offset }),
    {
        WriteAt { fd, buf, offset }
    }

    /// The request of the write, for a buffer with `len` initialised bytes.
    pub fn configure(&self, len: usize) -> (s: Submission)
        ensures
            s == (Submission::Write { fd: self.fd, len: ring_len(len), offset: self.offset }),
    {
        Submission::Write { fd: self.fd, len: ring_len(len), offset: self.offset }
    }

    /// Turns the completion of the write into its result: the number of
    /// bytes written, or the error. The buffer comes back in either case.
    pub fn complete(self, result: CQEResult) -> (out: (Result<usize, Errno>, B))
        ensures
            out.0 == length_result(result),
            out.1 == self.buf,
    {
        (length_result(result), self.buf)
    }
}

/// The flushing of a file to disk.
#[derive(Debug, PartialEq, Eq, Clone, Copy, Structural)]
pub struct Sync {
    /// The descriptor of the file.
    pub fd: FdKind,
    /// Whether only the data is flushed.
    pub datasync: bool,
}

impl Sync {
    /// The flushing of the file `fd`.
    pub fn new(fd: FdKind, datasync: bool) -> (op: Self)
        ensures
            op == (Sync { fd, datasync }),
    {
        Sync { fd, datasync }
    }
}

impl Operation for Sync {
    fn configure(&self) -> (s: Submission)
        ensures
            s == (Submission::Fsync { fd: self.fd, datasync: self.datasync }),
    {
        Submission::Fsync { fd: self.fd, datasync: self.datasync }
    }

    fn cleanup(&mut self, result: CQEResult) -> (close: Option<i32>)
        ensures
            close is None,
            *final(self) == *old(self),
    {
        None
    }
}

impl Singleshot for Sync {
    type Output = Result<(), Errno>;

    fn complete(self, result: CQEResult) -> (out: Result<(), Errno>)
        ensures
            out == (unit_result(result)),
    {
        unit_result(result)
    }
}

/// The flushing of a range of a file.
#[derive(Debug, PartialEq, Eq, Clone, Copy, Structural)]
pub struct SyncRange {
    /// The descriptor of the file.
    pub fd: FdKind,
    /// The start of the range.
    pub offset: u64,
    /// The length of the range.
    pub len: u32,
    /// The flags of the call.
    pub flags: u32,
}

impl SyncRange {
    /// The flushing of the range of `len` bytes at `offset` of the file
    /// `fd`.
    pub fn new(fd: FdKind, offset: u64, len: u32, flags: u32) -> (op: Self)
        ensures
            op == (SyncRange { fd, offset, len, flags }),
    {
        SyncRange { fd, offset, len, flags }
    }
}

impl Operation for SyncRange {
    fn configure(&self) -> (s: Submission)
        ensures
            s == (Submission::SyncFileRange {
                fd: self.fd,
                len: self.len,
                offset: self.offset,
                flags: self.flags,
            }),
    {
        Submission::SyncFileRange {
            fd: self.fd,
            len: self.len,
            offset: self.offset,
            flags: self.flags,
        }
    }

    fn cleanup(&mut self, result: CQEResult) -> (close: Option<i32>)
        ensures
            close is None,
            *final(self) == *old(self),
    {
        None
    }
}

impl Singleshot for SyncRange {
    type Output = Result<(), Errno>;

    fn complete(self, result: CQEResult) -> (out: Result<(), Errno>)
        ensures
            out == (unit_result(result)),
    {
        unit_result(result)
    }
}

/// A call of `fallocate` on a file.
#[derive(Debug, PartialEq, Eq, Clone, Copy, Structural)]
pub struct Fallocate {
    /// The descriptor of the file.
    pub fd: FdKind,
    /// The start of the range.
    pub offset: u64,
    /// The length of the range.
    pub len: u64,
    /// The mode of the call.
    pub mode: i32,
}

impl Fallocate {
    /// The call of `fallocate` on the range of `len` bytes at `offset` of
    /// the file `fd`.
    pub fn new(fd: FdKind, offset: u64, len: u64, mode: i32) -> (op: Self)
        ensures
            op == (Fallocate { fd, offset, len, mode }),
    {
        Fallocate { fd, offset, len, mode }
    }
}

impl Operation for Fallocate {
    fn configure(&self) -> (s: Submission)
        ensures
            s == (Submission::Fallocate { fd: self.fd, len: self.len, offset: self.offset, mode: self.mode }),
    {
        Submission::Fallocate { fd: self.fd, len: self.len, offset: self.offset, mode: self.mode }
    }

    fn cleanup(&mut self, result: CQEResult) -> (close: Option<i32>)
        ensures
            close is None,
            *final(self) == *old(self),
    {
        None
    }
}

impl Singleshot for Fallocate {
    type Output = Result<(), Errno>;

    fn complete(self, result: CQEResult) -> (out: Result<(), Errno>)
        ensures
            out == (unit_result(result)),
    {
        unit_result(result)
    }
}

} // verus!

//! The options with which a file is opened.

use vstd::prelude::*;
use crate::error::{Errno, EINVAL};

verus! {

/// Open for reading only.
pub const O_RDONLY: i32 = 0;

/// Open for writing only.
pub const O_WRONLY: i32 = 1;

/// Open for reading and writing.
pub const O_RDWR: i32 = 2;

/// Create the file if it does not exist.
pub const O_CREAT: i32 = 0x40;

/// Fail if the file exists.
pub const O_EXCL: i32 = 0x80;

/// Truncate the file to length zero.
pub const O_TRUNC: i32 = 0x200;

/// Write at the end of the file.
pub const O_APPEND: i32 = 0x400;

/// Close the descriptor when the process executes another program.
pub const O_CLOEXEC: i32 = 0x80000;

/// The descriptor that stands for the working directory.
pub const AT_FDCWD: i32 = -100;

/// Options and flags which say how a file is opened.
#[derive(Debug, PartialEq, Eq, Clone, Copy, Structural)]
pub struct OpenOptions {
    /// Read access.
    pub read: bool,
    /// Write access.
    pub write: bool,
    /// Writes go to the end of the file.
    pub append: bool,
    /// The file is truncated to length zero.
    pub truncate: bool,
    /// The file is created if it does not exist.
    pub create: bool,
    /// The file is created, and must not exist.
    pub create_new: bool,
}

impl OpenOptions {
    /// A blank set of options: every option is off.
    #[verifier::allow_in_spec]
    pub fn new() -> OpenOptions
        returns
            (OpenOptions {
                read: false,
                write: false,
                append: false,
                truncate: false,
                create: false,
                create_new: false,
            }),
    {
        OpenOptions {
            read: false,
            write: false,
            append: false,
            truncate: false,
            create: false,
            create_new: false,
        }
    }

    /// Sets the option for read access.
    pub fn read(&mut self, read: bool)
        ensures
            *final(self) == (OpenOptions { read, ..*old(self) }),
    {
        self.read = read;
    }

    /// Sets the option for write access.
    pub fn write(&mut self, write: bool)
        ensures
            *final(self) == (OpenOptions { write, ..*old(self) }),
    {
        self.write = write;
    }

    /// Sets the option for the append mode.
    pub fn append(&mut self, append: bool)
        ensures
            *final(self) == (OpenOptions { append, ..*old(self) }),
    {
        self.append = append;
    }

    /// Sets the option for truncating a previous file.
    pub fn truncate(&mut self, truncate: bool)
        ensures
            *final(self) == (OpenOptions { truncate, ..*old(self) }),
    {
        self.truncate = truncate;
    }

    /// Sets the option to create a new file, or open it if it exists.
    pub fn create(&mut self, create: bool)
        ensures
            *final(self) == (OpenOptions { create, ..*old(self) }),
    {
        self.create = create;
    }

    /// Sets the option to create a new file, failing if it exists.
    pub fn create_new(&mut self, create_new: bool)
        ensures
            *final(self) == (OpenOptions { create_new, ..*old(self) }),
    {
        self.create_new = create_new;
    }

    /// The access mode of the options: reading, writing or both, with the
    /// append flag where it is set. Options that ask for no access at all
    /// are invalid.
    pub open spec fn access_mode(self) -> Result<i32, Errno> {
        if self.append {
            if self.read {
                Ok(O_RDWR | O_APPEND)
            } else {
                Ok(O_WRONLY | O_APPEND)
            }
        } else if self.read && self.write {
            Ok(O_RDWR)
        } else if self.read {
            Ok(O_RDONLY)
        } else if self.write {
            Ok(O_WRONLY)
        } else {
            Err(Errno { code: EINVAL })
        }
    }

    /// Whether the creation options fit the access: creating and
    /// truncating need write access, and truncating an existing file does
    /// not go with appending.
    pub open spec fn creation_valid(self) -> bool {
        if self.append {
            !(self.truncate && !self.create_new)
        } else if self.write {
            true
        } else {
            !(self.truncate || self.create || self.create_new)
        }
    }

    /// The creation mode of the options.
    pub open spec fn creation_mode(self) -> Result<i32, Errno> {
        if !self.creation_valid() {
            Err(Errno { code: EINVAL })
        } else if self.create_new {
            Ok(O_CREAT | O_EXCL)
        } else if self.create && self.truncate {
            Ok(O_CREAT | O_TRUNC)
        } else if self.create {
            Ok(O_CREAT)
        } else if self.truncate {
            Ok(O_TRUNC)
        } else {
            Ok(0)
        }
    }

    /// Returns the access mode of the options, or the error for invalid
    /// options.
    pub fn get_access_mode(&self) -> (r: Result<i32, Errno>)
        ensures
            r == self.access_mode(),
    {
        if self.append {
            if self.read {
                Ok(O_RDWR | O_APPEND)
            } else {
                Ok(O_WRONLY | O_APPEND)
            }
        } else if self.read && self.write {
            Ok(O_RDWR)
        } else if self.read {
            Ok(O_RDONLY)
        } else if self.write {
            Ok(O_WRONLY)
        } else {
            Err(Errno::from_raw_os_error(EINVAL))
        }
    }

    /// Returns the creation mode of the options, or the error for invalid
    /// options.
    pub fn get_creation_mode(&self) -> (r: Result<i32, Errno>)
        ensures
            r == self.creation_mode(),
    {
        let valid = if self.append {
            !(self.truncate && !self.create_new)
        } else if self.write {
            true
        } else {
            !(self.truncate || self.create || self.create_new)
        };
        if !valid {
            Err(Errno::from_raw_os_error(EINVAL))
        } else if self.create_new {
            Ok(O_CREAT | O_EXCL)
        } else if self.create && self.truncate {
            Ok(O_CREAT | O_TRUNC)
        } else if self.create {
            Ok(O_CREAT)
        } else if self.truncate {
            Ok(O_TRUNC)
        } else {
            Ok(0)
        }
    }
}

} // verus!

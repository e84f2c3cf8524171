//! What the aggregator reads off an event: its texts, the device numbers,
//! and the type and permissions of the file.

use crate::error::Error;
use crate::event::{EventType, FileAccessEvent};
use crate::fmt::{decimal, push_decimal};
use crate::fs_type::FsType;
use crate::mode::{FileType, Permissions, S_IFMT};
use crate::text::{c_str_bytes, c_str_lossy, utf8_lossy};
use vstd::prelude::*;
use vstd::string::StringExecFns;

verus! {

/// The major number in a device number of the kernel: bits 20 to 31.
pub open spec fn spec_major(dev: u32) -> u32 {
    (dev >> 20) & 0xfff
}

/// The minor number in a device number of the kernel: bits 0 to 19.
pub open spec fn spec_minor(dev: u32) -> u32 {
    dev & 0xfffff
}

/// The type bits of a mode.
pub open spec fn spec_file_type_mode(i_mode: u16) -> u32 {
    (i_mode as u32) & S_IFMT
}

/// The file type of a mode, or the type bits that no file type has.
pub open spec fn spec_file_type(i_mode: u16) -> Result<FileType, Error> {
    match FileType::spec_try_from(spec_file_type_mode(i_mode)) {
        Ok(t) => Ok(t),
        Err(n) => Err(Error::FileType(n)),
    }
}

/// The filesystem type of a magic number. A number over 32 bits is no magic
/// number; one that no known type has comes back in the error.
pub open spec fn spec_fs_type(s_magic: u64) -> Result<FsType, Error> {
    if s_magic > u32::MAX {
        Err(Error::IntConv)
    } else {
        match FsType::spec_try_from(s_magic as u32) {
            Ok(t) => Ok(t),
            Err(n) => Err(Error::FsType(n)),
        }
    }
}

/// Where the command line of a process is read: `/proc/<tgid>/cmdline`.
pub open spec fn spec_cmdline_path(tgid: u32) -> Seq<char> {
    "/proc/"@ + decimal(tgid as nat) + "/cmdline"@
}

/// Where the name of a block device is read:
/// `/sys/dev/block/<major>:<minor>/uevent`.
pub open spec fn spec_uevent_path(major: u32, minor: u32) -> Seq<char> {
    "/sys/dev/block/"@ + decimal(major as nat) + ":"@ + decimal(minor as nat) + "/uevent"@
}

impl EventType {
    /// The name of each kind.
    pub open spec fn spec_kind_name(self) -> Seq<char> {
        match self {
            EventType::MmapRead => "MmapRead"@,
            EventType::MmapWrite => "MmapWrite"@,
            EventType::NullPage => "NullPage"@,
            EventType::VfsRead => "VfsRead"@,
            EventType::VfsWrite => "VfsWrite"@,
            EventType::VfsReadv => "VfsReadv"@,
            EventType::VfsWritev => "VfsWritev"@,
            EventType::Unknown => "Unknown"@,
        }
    }

    /// The kernel function at which each kind is observed.
    pub open spec fn spec_syscall(self) -> Seq<char> {
        match self {
            EventType::MmapRead => "filemap_fault"@,
            EventType::MmapWrite => "filemap_fault"@,
            EventType::NullPage => "filemap_fault"@,
            EventType::VfsRead => "vfs_read"@,
            EventType::VfsWrite => "vfs_write"@,
            EventType::VfsReadv => "vfs_readv"@,
            EventType::VfsWritev => "vfs_writev"@,
            EventType::Unknown => "unknown"@,
        }
    }

    /// Whether each kind reads or writes.
    pub open spec fn spec_direction(self) -> Seq<char> {
        match self {
            EventType::MmapRead => "read"@,
            EventType::MmapWrite => "write"@,
            EventType::NullPage => "none"@,
            EventType::VfsRead => "read"@,
            EventType::VfsWrite => "write"@,
            EventType::VfsReadv => "read"@,
            EventType::VfsWritev => "write"@,
            EventType::Unknown => "unknown"@,
        }
    }

    pub fn kind_name(self) -> (s: &'static str)
        ensures
            s@ == self.spec_kind_name(),
    {
        match self {
            EventType::MmapRead => "MmapRead",
            EventType::MmapWrite => "MmapWrite",
            EventType::NullPage => "NullPage",
            EventType::VfsRead => "VfsRead",
            EventType::VfsWrite => "VfsWrite",
            EventType::VfsReadv => "VfsReadv",
            EventType::VfsWritev => "VfsWritev",
            EventType::Unknown => "Unknown",
        }
    }

    pub fn syscall(self) -> (s: &'static str)
        ensures
            s@ == self.spec_syscall(),
    {
        match self {
            EventType::MmapRead => "filemap_fault",
            EventType::MmapWrite => "filemap_fault",
            EventType::NullPage => "filemap_fault",
            EventType::VfsRead => "vfs_read",
            EventType::VfsWrite => "vfs_write",
            EventType::VfsReadv => "vfs_readv",
            EventType::VfsWritev => "vfs_writev",
            EventType::Unknown => "unknown",
        }
    }

    pub fn direction(self) -> (s: &'static str)
        ensures
            s@ == self.spec_direction(),
    {
        match self {
            EventType::MmapRead => "read",
            EventType::MmapWrite => "write",
            EventType::NullPage => "none",
            EventType::VfsRead => "read",
            EventType::VfsWrite => "write",
            EventType::VfsReadv => "read",
            EventType::VfsWritev => "write",
            EventType::Unknown => "unknown",
        }
    }
}

/// Reading an event.
pub trait EventExt: Sized {
    /// The event that is read.
    spec fn event(&self) -> FileAccessEvent;

    /// The name of the process: the text of `comm` up to its first zero byte.
    fn comm(&self) -> (s: String)
        ensures
            s@ == utf8_lossy(c_str_bytes(self.event().comm@)),
    ;

    /// The path of the file: the text of `path` up to its first zero byte.
    fn path(&self) -> (s: String)
        ensures
            s@ == utf8_lossy(c_str_bytes(self.event().path@)),
    ;

    /// The file from which the command line of the process is read.
    fn cmdline_path(&self) -> (s: String)
        ensures
            s@ == spec_cmdline_path(self.event().tgid),
    ;

    fn major(&self) -> (m: u32)
        ensures
            m == spec_major(self.event().dev),
            m < 0x1000,
    ;

    fn minor(&self) -> (m: u32)
        ensures
            m == spec_minor(self.event().dev),
            m < 0x10_0000,
    ;

    /// The file from which the name of the device is read.
    fn uevent_path(&self) -> (s: String)
        ensures
            s@ == spec_uevent_path(spec_major(self.event().dev), spec_minor(self.event().dev)),
    ;

    /// The type bits of the mode.
    fn file_type_mode(&self) -> (m: u32)
        ensures
            m == spec_file_type_mode(self.event().i_mode),
    ;

    fn file_type(&self) -> (r: Result<FileType, Error>)
        ensures
            r == spec_file_type(self.event().i_mode),
    ;

    fn perms(&self) -> (p: Permissions)
        ensures
            p == Permissions::of(self.event().i_mode),
    ;

    fn fs_type(&self) -> (r: Result<FsType, Error>)
        ensures
            r == spec_fs_type(self.event().s_magic),
    ;

    fn syscall(&self) -> (s: &'static str)
        ensures
            s@ == self.event().event_type.spec_syscall(),
    ;

    fn direction(&self) -> (s: &'static str)
        ensures
            s@ == self.event().event_type.spec_direction(),
    ;

    fn kind_name(&self) -> (s: &'static str)
        ensures
            s@ == self.event().event_type.spec_kind_name(),
    ;
}

impl EventExt for FileAccessEvent {
    open spec fn event(&self) -> FileAccessEvent {
        *self
    }

    fn comm(&self) -> (s: String) {
        c_str_lossy(self.comm.as_slice())
    }

    fn path(&self) -> (s: String) {
        c_str_lossy(self.path.as_slice())
    }

    fn cmdline_path(&self) -> (s: String) {
        let mut s = String::from_str("/proc/");
        push_decimal(&mut s, self.tgid as u64);
        s.append("/cmdline");
        s
    }

    fn major(&self) -> (m: u32) {
        let dev: u32 = self.dev;
        assert((dev >> 20) & 0xfff < 0x1000) by (bit_vector);
        (self.dev >> 20) & 0xfff
    }

    fn minor(&self) -> (m: u32) {
        let dev: u32 = self.dev;
        assert(dev & 0xfffff < 0x10_0000) by (bit_vector);
        self.dev & 0xfffff
    }

    fn uevent_path(&self) -> (s: String) {
        let mut s = String::from_str("/sys/dev/block/");
        push_decimal(&mut s, self.major() as u64);
        s.append(":");
        push_decimal(&mut s, self.minor() as u64);
        s.append("/uevent");
        s
    }

    fn file_type_mode(&self) -> (m: u32) {
        (self.i_mode as u32) & S_IFMT
    }

    fn file_type(&self) -> (r: Result<FileType, Error>) {
        match FileType::try_from(self.file_type_mode()) {
            Ok(t) => Ok(t),
            Err(n) => Err(Error::FileType(n)),
        }
    }

    fn perms(&self) -> (p: Permissions) {
        Permissions::from(self.i_mode)
    }

    fn fs_type(&self) -> (r: Result<FsType, Error>) {
        if self.s_magic > 0xffff_ffff {
            return Err(Error::IntConv);
        }
        match FsType::try_from(self.s_magic as u32) {
            Ok(t) => Ok(t),
            Err(n) => Err(Error::FsType(n)),
        }
    }

    fn syscall(&self) -> (s: &'static str) {
        self.event_type.syscall()
    }

    fn direction(&self) -> (s: &'static str) {
        self.event_type.direction()
    }

    fn kind_name(&self) -> (s: &'static str) {
        self.event_type.kind_name()
    }
}

} // verus!

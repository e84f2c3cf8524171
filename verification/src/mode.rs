//! The mode of an inode: the type of the file and its permission bits.

use crate::fmt::push_char;
use vstd::prelude::*;
use vstd::std_specs::convert::FromSpecImpl;

verus! {

/// Mask of the file type in a mode.
pub const S_IFMT: u32 = 0o170000;

pub const S_IFSOCK: u32 = 0o140000;

pub const S_IFLNK: u32 = 0o120000;

pub const S_IFREG: u32 = 0o100000;

pub const S_IFBLK: u32 = 0o060000;

pub const S_IFDIR: u32 = 0o040000;

pub const S_IFCHR: u32 = 0o020000;

pub const S_IFIFO: u32 = 0o010000;

pub const S_ISUID: u32 = 0o4000;

pub const S_ISGID: u32 = 0o2000;

pub const S_ISVTX: u32 = 0o1000;

pub const S_IRUSR: u32 = 0o400;

pub const S_IWUSR: u32 = 0o200;

pub const S_IXUSR: u32 = 0o100;

pub const S_IRGRP: u32 = 0o040;

pub const S_IWGRP: u32 = 0o020;

pub const S_IXGRP: u32 = 0o010;

pub const S_IROTH: u32 = 0o004;

pub const S_IWOTH: u32 = 0o002;

pub const S_IXOTH: u32 = 0o001;

/// The type of a file, as the type bits of its mode tell it.
#[derive(Clone, Copy, Debug, PartialEq, Eq, Structural)]
pub enum FileType {
    Fifo,
    CharacterDevice,
    BlockDevice,
    Directory,
    RegularFile,
    Symlink,
    Socket,
    /// No type bit is set.
    Unknown,
}

impl FileType {
    /// The type bits of each type.
    pub open spec fn spec_bits(self) -> u32 {
        match self {
            FileType::Fifo => S_IFIFO,
            FileType::CharacterDevice => S_IFCHR,
            FileType::BlockDevice => S_IFBLK,
            FileType::Directory => S_IFDIR,
            FileType::RegularFile => S_IFREG,
            FileType::Symlink => S_IFLNK,
            FileType::Socket => S_IFSOCK,
            FileType::Unknown => 0,
        }
    }

    /// The type with the given bits, or the bits again where no type has them.
    pub open spec fn spec_try_from(value: u32) -> Result<FileType, u32> {
        if value == S_IFIFO {
            Ok(FileType::Fifo)
        } else if value == S_IFCHR {
            Ok(FileType::CharacterDevice)
        } else if value == S_IFBLK {
            Ok(FileType::BlockDevice)
        } else if value == S_IFDIR {
            Ok(FileType::Directory)
        } else if value == S_IFREG {
            Ok(FileType::RegularFile)
        } else if value == S_IFLNK {
            Ok(FileType::Symlink)
        } else if value == S_IFSOCK {
            Ok(FileType::Socket)
        } else if value == 0 {
            Ok(FileType::Unknown)
        } else {
            Err(value)
        }
    }

    /// The name of each type.
    pub open spec fn spec_name(self) -> Seq<char> {
        match self {
            FileType::Fifo => "Fifo"@,
            FileType::CharacterDevice => "CharacterDevice"@,
            FileType::BlockDevice => "BlockDevice"@,
            FileType::Directory => "Directory"@,
            FileType::RegularFile => "RegularFile"@,
            FileType::Symlink => "Symlink"@,
            FileType::Socket => "Socket"@,
            FileType::Unknown => "Unknown"@,
        }
    }

    pub fn bits(self) -> (b: u32)
        ensures
            b == self.spec_bits(),
    {
        match self {
            FileType::Fifo => S_IFIFO,
            FileType::CharacterDevice => S_IFCHR,
            FileType::BlockDevice => S_IFBLK,
            FileType::Directory => S_IFDIR,
            FileType::RegularFile => S_IFREG,
            FileType::Symlink => S_IFLNK,
            FileType::Socket => S_IFSOCK,
            FileType::Unknown => 0,
        }
    }

    /// The type whose type bits are `value`; the value comes back as the
    /// error where it is the bits of no type.
    pub fn try_from(value: u32) -> (r: Result<FileType, u32>)
        ensures
            r == Self::spec_try_from(value),
    {
        if value == S_IFIFO {
            Ok(FileType::Fifo)
        } else if value == S_IFCHR {
            Ok(FileType::CharacterDevice)
        } else if value == S_IFBLK {
            Ok(FileType::BlockDevice)
        } else if value == S_IFDIR {
            Ok(FileType::Directory)
        } else if value == S_IFREG {
            Ok(FileType::RegularFile)
        } else if value == S_IFLNK {
            Ok(FileType::Symlink)
        } else if value == S_IFSOCK {
            Ok(FileType::Socket)
        } else if value == 0 {
            Ok(FileType::Unknown)
        } else {
            Err(value)
        }
    }

    pub fn as_ref(&self) -> (s: &'static str)
        ensures
            s@ == self.spec_name(),
    {
        match self {
            FileType::Fifo => "Fifo",
            FileType::CharacterDevice => "CharacterDevice",
            FileType::BlockDevice => "BlockDevice",
            FileType::Directory => "Directory",
            FileType::RegularFile => "RegularFile",
            FileType::Symlink => "Symlink",
            FileType::Socket => "Socket",
            FileType::Unknown => "Unknown",
        }
    }

    /// A type is found again from its bits, and bits that name a type are
    /// those of the type they name.
    pub proof fn lemma_bits_round_trip(t: FileType, value: u32)
        ensures
            Self::spec_try_from(t.spec_bits()) == Ok::<FileType, u32>(t),
            Self::spec_try_from(value) matches Ok(u) ==> u.spec_bits() == value,
    {
    }
}

/// Permission to read, to write and to execute.
#[derive(Clone, Copy, Debug, PartialEq, Eq, Structural)]
pub struct Triplet {
    pub read: bool,
    pub write: bool,
    pub execute: bool,
}

impl Triplet {
    /// The permissions that `mode` grants under the three masks.
    pub open spec fn spec_from_masks(
        mode: u32,
        read_mask: u32,
        write_mask: u32,
        exec_mask: u32,
    ) -> Triplet {
        Triplet {
            read: mode & read_mask != 0,
            write: mode & write_mask != 0,
            execute: mode & exec_mask != 0,
        }
    }

    /// Three characters, `r`, `w` and `x` in this order, each replaced by
    /// `-` where the permission is missing.
    pub open spec fn spec_to_string(self) -> Seq<char> {
        seq![
            if self.read {
                'r'
            } else {
                '-'
            },
            if self.write {
                'w'
            } else {
                '-'
            },
            if self.execute {
                'x'
            } else {
                '-'
            },
        ]
    }

    pub fn from_masks(mode: u32, read_mask: u32, write_mask: u32, exec_mask: u32) -> (t: Triplet)
        ensures
            t == Self::spec_from_masks(mode, read_mask, write_mask, exec_mask),
    {
        Triplet {
            read: mode & read_mask != 0,
            write: mode & write_mask != 0,
            execute: mode & exec_mask != 0,
        }
    }

    pub fn to_string(&self) -> (s: String)
        ensures
            s@ == self.spec_to_string(),
    {
        let mut s = String::new();
        push_char(
            &mut s,
            if self.read {
                'r'
            } else {
                '-'
            },
        );
        push_char(
            &mut s,
            if self.write {
                'w'
            } else {
                '-'
            },
        );
        push_char(
            &mut s,
            if self.execute {
                'x'
            } else {
                '-'
            },
        );
        assert(s@ =~= self.spec_to_string());
        s
    }
}

/// The permission bits of a mode.
#[derive(Clone, Copy, Debug, PartialEq, Eq, Structural)]
pub struct Permissions {
    pub owner: Triplet,
    pub group: Triplet,
    pub others: Triplet,
    pub setuid: bool,
    pub setgid: bool,
    pub sticky: bool,
}

impl Permissions {
    /// The permissions in a mode.
    pub open spec fn of(value: u16) -> Permissions {
        let mode = value as u32;
        Permissions {
            owner: Triplet::spec_from_masks(mode, S_IRUSR, S_IWUSR, S_IXUSR),
            group: Triplet::spec_from_masks(mode, S_IRGRP, S_IWGRP, S_IXGRP),
            others: Triplet::spec_from_masks(mode, S_IROTH, S_IWOTH, S_IXOTH),
            setuid: mode & S_ISUID != 0,
            setgid: mode & S_ISGID != 0,
            sticky: mode & S_ISVTX != 0,
        }
    }
}

impl From<u16> for Permissions {
    fn from(value: u16) -> (p: Permissions) {
        let value: u32 = value as u32;
        Permissions {
            owner: Triplet::from_masks(value, S_IRUSR, S_IWUSR, S_IXUSR),
            group: Triplet::from_masks(value, S_IRGRP, S_IWGRP, S_IXGRP),
            others: Triplet::from_masks(value, S_IROTH, S_IWOTH, S_IXOTH),
            setuid: value & S_ISUID != 0,
            setgid: value & S_ISGID != 0,
            sticky: value & S_ISVTX != 0,
        }
    }
}

impl FromSpecImpl<u16> for Permissions {
    open spec fn obeys_from_spec() -> bool {
        true
    }

    open spec fn from_spec(value: u16) -> Permissions {
        Permissions::of(value)
    }
}

} // verus!

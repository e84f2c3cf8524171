//! Filesystem types, by the magic number of the superblock.

use vstd::prelude::*;

verus! {

pub const ANON_INODE_FS_MAGIC: u32 = 0x9041934;

pub const PIPEFS_MAGIC: u32 = 0x50495045;

pub const SOCKFS_MAGIC: u32 = 0x534f434b;

pub const TMPFS_MAGIC: u32 = 0x1021994;

pub const DEVPTS_SUPER_MAGIC: u32 = 0x1cd1;

pub const PROC_SUPER_MAGIC: u32 = 0x9fa0;

pub const SYSFS_MAGIC: u32 = 0x62656572;

pub const DEBUGFS_MAGIC: u32 = 0x64626720;

pub const SECURITYFS_MAGIC: u32 = 0x73636673;

pub const CGROUP2_SUPER_MAGIC: u32 = 0x63677270;

pub const BPF_FS_MAGIC: u32 = 0xcafe4a11;

pub const HUGETLBFS_MAGIC: u32 = 0x958458f6;

pub const NSFS_MAGIC: u32 = 0x6e736673;

pub const OVERLAYFS_SUPER_MAGIC: u32 = 0x794c7630;

pub const RAMFS_MAGIC: u32 = 0x858458f6;

pub const SELINUX_MAGIC: u32 = 0xf97cff8c;

pub const SMACK_MAGIC: u32 = 0x43415d53;

pub const TRACEFS_MAGIC: u32 = 0x74726163;

pub const BTRFS_SUPER_MAGIC: u32 = 0x9123683e;
/// A filesystem type that is known by its magic number.
#[derive(Clone, Copy, Debug, PartialEq, Eq, Structural)]
pub enum FsType {
    AnonInode,
    Pipefs,
    Sockfs,
    Tmpfs,
    Devpts,
    Proc,
    Sysfs,
    Debugfs,
    Securityfs,
    Cgroup2,
    Bpf,
    Hugetlbfs,
    Nsfs,
    Overlayfs,
    Ramfs,
    Selinux,
    Smack,
    Tracefs,
    Btrfs,
}

impl FsType {
    /// The magic number of each type.
    pub open spec fn spec_magic(self) -> u32 {
        match self {
            FsType::AnonInode => ANON_INODE_FS_MAGIC,
            FsType::Pipefs => PIPEFS_MAGIC,
            FsType::Sockfs => SOCKFS_MAGIC,
            FsType::Tmpfs => TMPFS_MAGIC,
            FsType::Devpts => DEVPTS_SUPER_MAGIC,
            FsType::Proc => PROC_SUPER_MAGIC,
            FsType::Sysfs => SYSFS_MAGIC,
            FsType::Debugfs => DEBUGFS_MAGIC,
            FsType::Securityfs => SECURITYFS_MAGIC,
            FsType::Cgroup2 => CGROUP2_SUPER_MAGIC,
            FsType::Bpf => BPF_FS_MAGIC,
            FsType::Hugetlbfs => HUGETLBFS_MAGIC,
            FsType::Nsfs => NSFS_MAGIC,
            FsType::Overlayfs => OVERLAYFS_SUPER_MAGIC,
            FsType::Ramfs => RAMFS_MAGIC,
            FsType::Selinux => SELINUX_MAGIC,
            FsType::Smack => SMACK_MAGIC,
            FsType::Tracefs => TRACEFS_MAGIC,
            FsType::Btrfs => BTRFS_SUPER_MAGIC,
        }
    }

    /// The type with the given magic number, or the number again where no
    /// known type has it.
    pub open spec fn spec_try_from(magic: u32) -> Result<FsType, u32> {
        if magic == ANON_INODE_FS_MAGIC {
            Ok(FsType::AnonInode)
        } else if magic == PIPEFS_MAGIC {
            Ok(FsType::Pipefs)
        } else if magic == SOCKFS_MAGIC {
            Ok(FsType::Sockfs)
        } else if magic == TMPFS_MAGIC {
            Ok(FsType::Tmpfs)
        } else if magic == DEVPTS_SUPER_MAGIC {
            Ok(FsType::Devpts)
        } else if magic == PROC_SUPER_MAGIC {
            Ok(FsType::Proc)
        } else if magic == SYSFS_MAGIC {
            Ok(FsType::Sysfs)
        } else if magic == DEBUGFS_MAGIC {
            Ok(FsType::Debugfs)
        } else if magic == SECURITYFS_MAGIC {
            Ok(FsType::Securityfs)
        } else if magic == CGROUP2_SUPER_MAGIC {
            Ok(FsType::Cgroup2)
        } else if magic == BPF_FS_MAGIC {
            Ok(FsType::Bpf)
        } else if magic == HUGETLBFS_MAGIC {
            Ok(FsType::Hugetlbfs)
        } else if magic == NSFS_MAGIC {
            Ok(FsType::Nsfs)
        } else if magic == OVERLAYFS_SUPER_MAGIC {
            Ok(FsType::Overlayfs)
        } else if magic == RAMFS_MAGIC {
            Ok(FsType::Ramfs)
        } else if magic == SELINUX_MAGIC {
            Ok(FsType::Selinux)
        } else if magic == SMACK_MAGIC {
            Ok(FsType::Smack)
        } else if magic == TRACEFS_MAGIC {
            Ok(FsType::Tracefs)
        } else if magic == BTRFS_SUPER_MAGIC {
            Ok(FsType::Btrfs)
        } else {
            Err(magic)
        }
    }

    /// The name of each type.
    pub open spec fn spec_name(self) -> Seq<char> {
        match self {
            FsType::AnonInode => "AnonInode"@,
            FsType::Pipefs => "Pipefs"@,
            FsType::Sockfs => "Sockfs"@,
            FsType::Tmpfs => "Tmpfs"@,
            FsType::Devpts => "Devpts"@,
            FsType::Proc => "Proc"@,
            FsType::Sysfs => "Sysfs"@,
            FsType::Debugfs => "Debugfs"@,
            FsType::Securityfs => "Securityfs"@,
            FsType::Cgroup2 => "Cgroup2"@,
            FsType::Bpf => "Bpf"@,
            FsType::Hugetlbfs => "Hugetlbfs"@,
            FsType::Nsfs => "Nsfs"@,
            FsType::Overlayfs => "Overlayfs"@,
            FsType::Ramfs => "Ramfs"@,
            FsType::Selinux => "Selinux"@,
            FsType::Smack => "Smack"@,
            FsType::Tracefs => "Tracefs"@,
            FsType::Btrfs => "Btrfs"@,
        }
    }

    /// The short name of each type, as mount tables write it.
    pub open spec fn spec_short_name(self) -> Seq<char> {
        match self {
            FsType::AnonInode => "anon_inode"@,
            FsType::Pipefs => "pipe"@,
            FsType::Sockfs => "socket"@,
            FsType::Tmpfs => "tmpfs"@,
            FsType::Devpts => "devpts"@,
            FsType::Proc => "proc"@,
            FsType::Sysfs => "sysfs"@,
            FsType::Debugfs => "debugfs"@,
            FsType::Securityfs => "securityfs"@,
            FsType::Cgroup2 => "cgroup2"@,
            FsType::Bpf => "bpf"@,
            FsType::Hugetlbfs => "hugetlbfs"@,
            FsType::Nsfs => "ns"@,
            FsType::Overlayfs => "overlay"@,
            FsType::Ramfs => "ramfs"@,
            FsType::Selinux => "selinux"@,
            FsType::Smack => "smack"@,
            FsType::Tracefs => "tracefs"@,
            FsType::Btrfs => "btrfs"@,
        }
    }

    pub fn magic(self) -> (m: u32)
        ensures
            m == self.spec_magic(),
    {
        match self {
            FsType::AnonInode => ANON_INODE_FS_MAGIC,
            FsType::Pipefs => PIPEFS_MAGIC,
            FsType::Sockfs => SOCKFS_MAGIC,
            FsType::Tmpfs => TMPFS_MAGIC,
            FsType::Devpts => DEVPTS_SUPER_MAGIC,
            FsType::Proc => PROC_SUPER_MAGIC,
            FsType::Sysfs => SYSFS_MAGIC,
            FsType::Debugfs => DEBUGFS_MAGIC,
            FsType::Securityfs => SECURITYFS_MAGIC,
            FsType::Cgroup2 => CGROUP2_SUPER_MAGIC,
            FsType::Bpf => BPF_FS_MAGIC,
            FsType::Hugetlbfs => HUGETLBFS_MAGIC,
            FsType::Nsfs => NSFS_MAGIC,
            FsType::Overlayfs => OVERLAYFS_SUPER_MAGIC,
            FsType::Ramfs => RAMFS_MAGIC,
            FsType::Selinux => SELINUX_MAGIC,
            FsType::Smack => SMACK_MAGIC,
            FsType::Tracefs => TRACEFS_MAGIC,
            FsType::Btrfs => BTRFS_SUPER_MAGIC,
        }
    }

    /// The type whose magic number is `magic`; the number comes back as the
    /// error where no known type has it.
    pub fn try_from(magic: u32) -> (r: Result<FsType, u32>)
        ensures
            r == Self::spec_try_from(magic),
    {
        if magic == ANON_INODE_FS_MAGIC {
            Ok(FsType::AnonInode)
        } else if magic == PIPEFS_MAGIC {
            Ok(FsType::Pipefs)
        } else if magic == SOCKFS_MAGIC {
            Ok(FsType::Sockfs)
        } else if magic == TMPFS_MAGIC {
            Ok(FsType::Tmpfs)
        } else if magic == DEVPTS_SUPER_MAGIC {
            Ok(FsType::Devpts)
        } else if magic == PROC_SUPER_MAGIC {
            Ok(FsType::Proc)
        } else if magic == SYSFS_MAGIC {
            Ok(FsType::Sysfs)
        } else if magic == DEBUGFS_MAGIC {
            Ok(FsType::Debugfs)
        } else if magic == SECURITYFS_MAGIC {
            Ok(FsType::Securityfs)
        } else if magic == CGROUP2_SUPER_MAGIC {
            Ok(FsType::Cgroup2)
        } else if magic == BPF_FS_MAGIC {
            Ok(FsType::Bpf)
        } else if magic == HUGETLBFS_MAGIC {
            Ok(FsType::Hugetlbfs)
        } else if magic == NSFS_MAGIC {
            Ok(FsType::Nsfs)
        } else if magic == OVERLAYFS_SUPER_MAGIC {
            Ok(FsType::Overlayfs)
        } else if magic == RAMFS_MAGIC {
            Ok(FsType::Ramfs)
        } else if magic == SELINUX_MAGIC {
            Ok(FsType::Selinux)
        } else if magic == SMACK_MAGIC {
            Ok(FsType::Smack)
        } else if magic == TRACEFS_MAGIC {
            Ok(FsType::Tracefs)
        } else if magic == BTRFS_SUPER_MAGIC {
            Ok(FsType::Btrfs)
        } else {
            Err(magic)
        }
    }

    pub fn as_ref(&self) -> (s: &'static str)
        ensures
            s@ == self.spec_name(),
    {
        match self {
            FsType::AnonInode => "AnonInode",
            FsType::Pipefs => "Pipefs",
            FsType::Sockfs => "Sockfs",
            FsType::Tmpfs => "Tmpfs",
            FsType::Devpts => "Devpts",
            FsType::Proc => "Proc",
            FsType::Sysfs => "Sysfs",
            FsType::Debugfs => "Debugfs",
            FsType::Securityfs => "Securityfs",
            FsType::Cgroup2 => "Cgroup2",
            FsType::Bpf => "Bpf",
            FsType::Hugetlbfs => "Hugetlbfs",
            FsType::Nsfs => "Nsfs",
            FsType::Overlayfs => "Overlayfs",
            FsType::Ramfs => "Ramfs",
            FsType::Selinux => "Selinux",
            FsType::Smack => "Smack",
            FsType::Tracefs => "Tracefs",
            FsType::Btrfs => "Btrfs",
        }
    }

    pub fn short_name(&self) -> (s: &'static str)
        ensures
            s@ == self.spec_short_name(),
    {
        match self {
            FsType::AnonInode => "anon_inode",
            FsType::Pipefs => "pipe",
            FsType::Sockfs => "socket",
            FsType::Tmpfs => "tmpfs",
            FsType::Devpts => "devpts",
            FsType::Proc => "proc",
            FsType::Sysfs => "sysfs",
            FsType::Debugfs => "debugfs",
            FsType::Securityfs => "securityfs",
            FsType::Cgroup2 => "cgroup2",
            FsType::Bpf => "bpf",
            FsType::Hugetlbfs => "hugetlbfs",
            FsType::Nsfs => "ns",
            FsType::Overlayfs => "overlay",
            FsType::Ramfs => "ramfs",
            FsType::Selinux => "selinux",
            FsType::Smack => "smack",
            FsType::Tracefs => "tracefs",
            FsType::Btrfs => "btrfs",
        }
    }

    /// A type is found again from its magic number, and a number that names
    /// a type is the magic number of that type.
    pub proof fn lemma_magic_round_trip(t: FsType, magic: u32)
        ensures
            Self::spec_try_from(t.spec_magic()) == Ok::<FsType, u32>(t),
            Self::spec_try_from(magic) matches Ok(u) ==> u.spec_magic() == magic,
    {
    }
}

} // verus!

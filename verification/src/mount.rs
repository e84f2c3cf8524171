//! A snapshot of the kernel's directory entries and mounts, as plain values.
//!
//! An object's address is its index in the snapshot; an address past the end
//! is memory that cannot be read.

use crate::ext::Qstr;
use crate::path::StepReads;
use vstd::prelude::*;

verus! {

/// The code of a read that faulted.
pub const EFAULT: i64 = -14;

/// One directory entry: its parent and its name.
pub struct Dentry {
    pub parent: u64,
    pub name: Qstr,
}

/// One mount: its parent mount, its root entry, and the entry of the parent
/// mount that it is mounted on.
pub struct Mount {
    pub parent: u64,
    pub root: u64,
    pub mountpoint: u64,
}

/// Directory entries and mounts.
pub struct MountTree {
    pub dentries: Vec<Dentry>,
    pub mounts: Vec<Mount>,
}

impl MountTree {
    pub open spec fn has_dentry(&self, d: u64) -> bool {
        d < self.dentries@.len()
    }

    pub open spec fn has_mount(&self, m: u64) -> bool {
        m < self.mounts@.len()
    }

    /// The name of an entry, as the resolver takes it.
    pub open spec fn name_of(&self, d: u64) -> Seq<u8> {
        self.dentries@[d as int].name.text()
    }

    /// What a step reads when it stands on entry `d` of mount `m`.
    pub open spec fn spec_reads(&self, d: u64, m: u64) -> StepReads<'_> {
        StepReads {
            mnt_root: if self.has_mount(m) {
                Ok(self.mounts@[m as int].root)
            } else {
                Err(EFAULT)
            },
            d_parent: if self.has_dentry(d) {
                Ok(self.dentries@[d as int].parent)
            } else {
                Err(EFAULT)
            },
            mnt_parent: if self.has_mount(m) {
                Ok(self.mounts@[m as int].parent)
            } else {
                Err(EFAULT)
            },
            mnt_mountpoint: if self.has_mount(m) {
                Ok(self.mounts@[m as int].mountpoint)
            } else {
                Err(EFAULT)
            },
            d_name: if self.has_dentry(d) {
                Ok(&self.dentries@[d as int].name)
            } else {
                Err(EFAULT)
            },
        }
    }

    /// Reads what a step needs when it stands on entry `d` of mount `m`.
    pub fn read_step(&self, d: u64, m: u64) -> (reads: StepReads<'_>)
        ensures
            reads == self.spec_reads(d, m),
    {
        let have_d: bool = d < self.dentries.len() as u64;
        let have_m: bool = m < self.mounts.len() as u64;
        StepReads {
            mnt_root: if have_m {
                Ok(self.mounts[m as usize].root)
            } else {
                Err(EFAULT)
            },
            d_parent: if have_d {
                Ok(self.dentries[d as usize].parent)
            } else {
                Err(EFAULT)
            },
            mnt_parent: if have_m {
                Ok(self.mounts[m as usize].parent)
            } else {
                Err(EFAULT)
            },
            mnt_mountpoint: if have_m {
                Ok(self.mounts[m as usize].mountpoint)
            } else {
                Err(EFAULT)
            },
            d_name: if have_d {
                Ok(&self.dentries[d as usize].name)
            } else {
                Err(EFAULT)
            },
        }
    }
}

} // verus!

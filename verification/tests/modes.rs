use fetra::error::Error;
use fetra::event::{EventType, FileAccessEvent};
use fetra::event_ext::EventExt;
use fetra::fs_type::FsType;
use fetra::mode::{FileType, Permissions, Triplet};
use fetra::pretty::{get_inode_type_desc, major_minor, mode_to_string};
use linux_raw_sys::general as k;

#[test]
fn mode_constants_are_those_of_linux() {
    assert_eq!(fetra::mode::S_IFMT, k::S_IFMT);
    assert_eq!(fetra::mode::S_IFSOCK, k::S_IFSOCK);
    assert_eq!(fetra::mode::S_IFLNK, k::S_IFLNK);
    assert_eq!(fetra::mode::S_IFREG, k::S_IFREG);
    assert_eq!(fetra::mode::S_IFBLK, k::S_IFBLK);
    assert_eq!(fetra::mode::S_IFDIR, k::S_IFDIR);
    assert_eq!(fetra::mode::S_IFCHR, k::S_IFCHR);
    assert_eq!(fetra::mode::S_IFIFO, k::S_IFIFO);
    assert_eq!(fetra::mode::S_ISUID, k::S_ISUID);
    assert_eq!(fetra::mode::S_ISGID, k::S_ISGID);
    assert_eq!(fetra::mode::S_ISVTX, k::S_ISVTX);
    assert_eq!(fetra::mode::S_IRUSR, k::S_IRUSR);
    assert_eq!(fetra::mode::S_IWUSR, k::S_IWUSR);
    assert_eq!(fetra::mode::S_IXUSR, k::S_IXUSR);
    assert_eq!(fetra::mode::S_IRGRP, k::S_IRGRP);
    assert_eq!(fetra::mode::S_IWGRP, k::S_IWGRP);
    assert_eq!(fetra::mode::S_IXGRP, k::S_IXGRP);
    assert_eq!(fetra::mode::S_IROTH, k::S_IROTH);
    assert_eq!(fetra::mode::S_IWOTH, k::S_IWOTH);
    assert_eq!(fetra::mode::S_IXOTH, k::S_IXOTH);
}

#[test]
fn magic_numbers_are_those_of_linux() {
    assert_eq!(FsType::AnonInode.magic(), k::ANON_INODE_FS_MAGIC);
    assert_eq!(FsType::Pipefs.magic(), k::PIPEFS_MAGIC);
    assert_eq!(FsType::Sockfs.magic(), k::SOCKFS_MAGIC);
    assert_eq!(FsType::Tmpfs.magic(), k::TMPFS_MAGIC);
    assert_eq!(FsType::Devpts.magic(), k::DEVPTS_SUPER_MAGIC);
    assert_eq!(FsType::Proc.magic(), k::PROC_SUPER_MAGIC);
    assert_eq!(FsType::Sysfs.magic(), k::SYSFS_MAGIC);
    assert_eq!(FsType::Debugfs.magic(), k::DEBUGFS_MAGIC);
    assert_eq!(FsType::Securityfs.magic(), k::SECURITYFS_MAGIC);
    assert_eq!(FsType::Cgroup2.magic(), k::CGROUP2_SUPER_MAGIC);
    assert_eq!(FsType::Bpf.magic(), k::BPF_FS_MAGIC);
    assert_eq!(FsType::Hugetlbfs.magic(), k::HUGETLBFS_MAGIC);
    assert_eq!(FsType::Nsfs.magic(), k::NSFS_MAGIC);
    assert_eq!(FsType::Overlayfs.magic(), k::OVERLAYFS_SUPER_MAGIC);
    assert_eq!(FsType::Ramfs.magic(), k::RAMFS_MAGIC);
    assert_eq!(FsType::Selinux.magic(), k::SELINUX_MAGIC);
    assert_eq!(FsType::Smack.magic(), k::SMACK_MAGIC);
    assert_eq!(FsType::Tracefs.magic(), k::TRACEFS_MAGIC);
    assert_eq!(FsType::Btrfs.magic(), k::BTRFS_SUPER_MAGIC);
}

#[test]
fn fs_type_by_magic() {
    assert_eq!(FsType::try_from(0x0102_1994), Ok(FsType::Tmpfs));
    assert_eq!(FsType::try_from(0x9fa0), Ok(FsType::Proc));
    assert_eq!(FsType::try_from(0xEF53), Err(0xEF53));
    assert_eq!(FsType::try_from(0), Err(0));
    assert_eq!(FsType::Tmpfs.as_ref(), "Tmpfs");
    assert_eq!(FsType::Tmpfs.short_name(), "tmpfs");
    assert_eq!(FsType::Nsfs.short_name(), "ns");
}

#[test]
fn file_type_by_bits() {
    assert_eq!(FileType::try_from(0o100000), Ok(FileType::RegularFile));
    assert_eq!(FileType::try_from(0o040000), Ok(FileType::Directory));
    assert_eq!(FileType::try_from(0o120000), Ok(FileType::Symlink));
    assert_eq!(FileType::try_from(0o140000), Ok(FileType::Socket));
    assert_eq!(FileType::try_from(0o060000), Ok(FileType::BlockDevice));
    assert_eq!(FileType::try_from(0o020000), Ok(FileType::CharacterDevice));
    assert_eq!(FileType::try_from(0o010000), Ok(FileType::Fifo));
    assert_eq!(FileType::try_from(0), Ok(FileType::Unknown));
    assert_eq!(FileType::try_from(0o170000), Err(0o170000));
    assert_eq!(FileType::try_from(0o100644), Err(0o100644));
    assert_eq!(FileType::RegularFile.as_ref(), "RegularFile");
    assert_eq!(FileType::CharacterDevice.as_ref(), "CharacterDevice");
    for t in [
        FileType::Fifo,
        FileType::CharacterDevice,
        FileType::BlockDevice,
        FileType::Directory,
        FileType::RegularFile,
        FileType::Symlink,
        FileType::Socket,
        FileType::Unknown,
    ] {
        assert_eq!(FileType::try_from(t.bits()), Ok(t));
    }
}

#[test]
fn triplet_to_string() {
    let t = |read, write, execute| Triplet { read, write, execute }.to_string();
    assert_eq!(t(true, true, true), "rwx");
    assert_eq!(t(true, false, true), "r-x");
    assert_eq!(t(false, true, false), "-w-");
    assert_eq!(t(false, false, false), "---");
}

#[test]
fn triplet_from_masks() {
    assert_eq!(
        Triplet::from_masks(0o640, 0o400, 0o200, 0o100),
        Triplet { read: true, write: true, execute: false }
    );
    assert_eq!(
        Triplet::from_masks(0o640, 0o040, 0o020, 0o010),
        Triplet { read: true, write: false, execute: false }
    );
}

#[test]
fn permissions_from_mode() {
    let p = Permissions::from(0o104755u16);
    assert_eq!(p.owner, Triplet { read: true, write: true, execute: true });
    assert_eq!(p.group, Triplet { read: true, write: false, execute: true });
    assert_eq!(p.others, Triplet { read: true, write: false, execute: true });
    assert!(p.setuid);
    assert!(!p.setgid);
    assert!(!p.sticky);
    let q = Permissions::from(0o041777u16);
    assert!(q.sticky && !q.setuid && !q.setgid);
    let r = Permissions::from(0o2000u16);
    assert!(r.setgid);
    assert_eq!(r.owner, Triplet { read: false, write: false, execute: false });
}

fn event(dev: u32, s_magic: u64, i_mode: u16) -> FileAccessEvent {
    let mut e = FileAccessEvent::zeroed();
    e.dev = dev;
    e.s_magic = s_magic;
    e.i_mode = i_mode;
    e
}

#[test]
fn kernel_device_numbers() {
    let e = event((8 << 20) | 17, 0, 0);
    assert_eq!(e.major(), 8);
    assert_eq!(e.minor(), 17);
    let e = event(u32::MAX, 0, 0);
    assert_eq!(e.major(), 0xfff);
    assert_eq!(e.minor(), 0xfffff);
    assert_eq!(event((259 << 20) | 3, 0, 0).uevent_path(), "/sys/dev/block/259:3/uevent");
}

#[test]
fn user_device_numbers_are_those_of_libc() {
    for dev in [0u32, 1, 0x0801, 0x0811, 0xfd00, 0x10_3f05, u32::MAX, 0x8000_0000, 0x000f_ff00] {
        assert_eq!(major_minor(dev), (libc::major(dev as u64), libc::minor(dev as u64)));
    }
    assert_eq!(major_minor(0x0811), (8, 17));
    assert_eq!(major_minor(0x10_3f05), (0x3f, 0x105));
}

#[test]
fn event_file_type_and_fs_type() {
    let e = event(0, 0x0102_1994, 0o100644);
    assert_eq!(e.file_type(), Ok(FileType::RegularFile));
    assert_eq!(e.file_type_mode(), 0o100000);
    assert_eq!(e.fs_type(), Ok(FsType::Tmpfs));
    assert_eq!(e.perms(), Permissions::from(0o100644u16));
    let e = event(0, 0xEF53, 0o170000);
    assert_eq!(e.file_type(), Err(Error::FileType(0o170000)));
    assert_eq!(e.fs_type(), Err(Error::FsType(0xEF53)));
    let e = event(0, 0x1_0000_0000, 0);
    assert_eq!(e.fs_type(), Err(Error::IntConv));
    assert_eq!(e.file_type(), Ok(FileType::Unknown));
}

#[test]
fn event_texts() {
    let mut e = FileAccessEvent::zeroed();
    e.tgid = 500;
    e.comm[..3].copy_from_slice(b"app");
    e.path[..16].copy_from_slice(b"/var/log/app.log");
    assert_eq!(e.comm(), "app");
    assert_eq!(e.path(), "/var/log/app.log");
    assert_eq!(e.cmdline_path(), "/proc/500/cmdline");
    e.comm = *b"sixteen_bytes_xx";
    assert_eq!(e.comm(), "sixteen_bytes_xx");
}

#[test]
fn event_kind_texts() {
    let name = |t: EventType| (t.kind_name(), t.syscall(), t.direction());
    assert_eq!(name(EventType::VfsRead), ("VfsRead", "vfs_read", "read"));
    assert_eq!(name(EventType::VfsWrite), ("VfsWrite", "vfs_write", "write"));
    assert_eq!(name(EventType::VfsReadv), ("VfsReadv", "vfs_readv", "read"));
    assert_eq!(name(EventType::VfsWritev), ("VfsWritev", "vfs_writev", "write"));
    assert_eq!(name(EventType::MmapRead), ("MmapRead", "filemap_fault", "read"));
    assert_eq!(name(EventType::MmapWrite), ("MmapWrite", "filemap_fault", "write"));
    assert_eq!(name(EventType::NullPage), ("NullPage", "filemap_fault", "none"));
    assert_eq!(name(EventType::Unknown), ("Unknown", "unknown", "unknown"));
    let mut e = FileAccessEvent::zeroed();
    e.event_type = EventType::VfsWritev;
    assert_eq!((e.kind_name(), e.syscall(), e.direction()), ("VfsWritev", "vfs_writev", "write"));
}

#[test]
fn mode_strings() {
    assert_eq!(mode_to_string(0o100644), "-rw-r--r--");
    assert_eq!(mode_to_string(0o040755), "drwxr-xr-x");
    assert_eq!(mode_to_string(0o120777), "lrwxrwxrwx");
    assert_eq!(mode_to_string(0o140000), "s---------");
    assert_eq!(mode_to_string(0o060660), "brw-rw----");
    assert_eq!(mode_to_string(0o020620), "crw--w----");
    assert_eq!(mode_to_string(0o010600), "prw-------");
    assert_eq!(mode_to_string(0o000001), "?--------x");
    assert_eq!(mode_to_string(0o104755), "-rwxr-xr-x");
}

#[test]
fn inode_descriptions() {
    const ANON: u64 = 0x0904_1934;
    assert_eq!(get_inode_type_desc(0x0102_1994, 0o100644), "tmpfs");
    assert_eq!(get_inode_type_desc(0x5049_5045, 0o010600), "pipe");
    assert_eq!(get_inode_type_desc(0x534f_434b, 0o140777), "socket");
    assert_eq!(get_inode_type_desc(0xEF53, 0o100644), "regular_file");
    assert_eq!(get_inode_type_desc(0xEF53, 0o040755), "dir");
    assert_eq!(get_inode_type_desc(0xEF53, 0o120777), "symlink");
    assert_eq!(get_inode_type_desc(0xEF53, 0o060660), "block_dev");
    assert_eq!(get_inode_type_desc(0xEF53, 0o020620), "char_dev");
    assert_eq!(get_inode_type_desc(0xEF53, 0o010600), "fifo");
    assert_eq!(get_inode_type_desc(0xEF53, 0o140000), "socket");
    assert_eq!(get_inode_type_desc(0xEF53, 0), "magic:0xef53");
    assert_eq!(get_inode_type_desc(0, 0o170000), "magic:0x0");
    assert_eq!(get_inode_type_desc(ANON, 0o100600), "anon_inode:[anon_inode_file]");
    assert_eq!(get_inode_type_desc(ANON, 0o040600), "anon_inode:[dir]");
    assert_eq!(get_inode_type_desc(ANON, 0o140600), "socket");
    assert_eq!(get_inode_type_desc(ANON, 0), "anon_inode:[unknown]");
    // only the lower 32 bits of the magic number are looked up
    assert_eq!(get_inode_type_desc(0x1_0102_1994, 0o100644), "tmpfs");
    assert_eq!(get_inode_type_desc(0x1_0000_0000 + ANON, 0o100644), "anon_inode");
    assert_eq!(get_inode_type_desc(0x1_0000_EF53, 0), "magic:0x10000ef53");
}

#[test]
fn error_messages() {
    assert_eq!(Error::DeviceNotFound(8, 1).message(), "Device 8:1 not found");
    assert_eq!(Error::Io("gone".to_string()).message(), "Failed to read dir gone");
    assert_eq!(
        Error::Path("No such file".to_string(), "/sys/x".to_string()).message(),
        "No such file: /sys/x"
    );
    assert_eq!(
        Error::IntConv.message(),
        format!("Conversion failed: {}", u32::try_from(u64::MAX).unwrap_err())
    );
    assert_eq!(
        Error::FsType(61267).message(),
        "Conversion failed: No discriminant in enum `FsType` matches the value `61267`"
    );
    assert_eq!(
        Error::FileType(61440).message(),
        "Conversion failed: No discriminant in enum `FileType` matches the value `61440`"
    );
}

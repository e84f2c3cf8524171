//! One line of text for an event, in the manner of a long directory listing.

use crate::event::FileAccessEvent;
use crate::device::{dev_name_from_uevent, spec_dev_name};
use crate::size::{human_size, spec_human_size};
use crate::fmt::{decimal, hex, push_char, push_decimal, push_hex};
use crate::fs_type::{FsType, ANON_INODE_FS_MAGIC};
use crate::mode::{S_IFBLK, S_IFCHR, S_IFDIR, S_IFIFO, S_IFLNK, S_IFMT, S_IFREG, S_IFSOCK};
use crate::text::{c_str_bytes, utf8_lossy};
use vstd::prelude::*;
use vstd::string::{StrSliceExecFns, StringExecFns, StringSliceAdditionalSpecFns};

verus! {

/// The major number in a device number of user space: bits 8 to 19, and
/// above them bits 44 to 63.
pub open spec fn spec_user_major(dev: u64) -> u32 {
    (((dev & 0x0000_0000_000f_ff00) >> 8) | ((dev & 0xffff_f000_0000_0000) >> 32)) as u32
}

/// The minor number in a device number of user space: bits 0 to 7, and
/// above them bits 20 to 43.
pub open spec fn spec_user_minor(dev: u64) -> u32 {
    ((dev & 0x0000_0000_0000_00ff) | ((dev & 0x0000_0fff_fff0_0000) >> 12)) as u32
}

/// `libc::major`: the major number of a device number, taken from its bits
/// 8 to 19 and 44 to 63.
#[verifier::external_body]
fn user_major(dev: u64) -> (m: u32)
    ensures
        m == spec_user_major(dev),
{
    libc::major(dev)
}

/// `libc::minor`: the minor number of a device number, taken from its bits
/// 0 to 7 and 20 to 43.
#[verifier::external_body]
fn user_minor(dev: u64) -> (m: u32)
    ensures
        m == spec_user_minor(dev),
{
    libc::minor(dev)
}

/// The major and the minor number of a device, read as user space does.
pub fn major_minor(dev: u32) -> (r: (u32, u32))
    ensures
        r.0 == spec_user_major(dev as u64),
        r.1 == spec_user_minor(dev as u64),
{
    let d: u64 = dev as u64;
    (user_major(d), user_minor(d))
}

/// The description of the file type in a mode; empty where the type bits
/// name none. A regular file of the anonymous-inode filesystem is told
/// apart.
pub open spec fn spec_mode_desc(anon: bool, mode: u16) -> Seq<char> {
    let t = (mode as u32) & S_IFMT;
    if t == S_IFIFO {
        "fifo"@
    } else if t == S_IFCHR {
        "char_dev"@
    } else if t == S_IFDIR {
        "dir"@
    } else if t == S_IFBLK {
        "block_dev"@
    } else if t == S_IFREG {
        if anon {
            "anon_inode_file"@
        } else {
            "regular_file"@
        }
    } else if t == S_IFLNK {
        "symlink"@
    } else if t == S_IFSOCK {
        "socket"@
    } else {
        ""@
    }
}

/// What kind of thing an inode is. A known filesystem other than that of
/// anonymous inodes is named by its short name, on the lower 32 bits of the
/// magic number. Else the file type decides, wrapped in `anon_inode:[..]`
/// for an anonymous inode that is no socket. Where the type bits name no
/// type, an anonymous inode is `anon_inode:[unknown]`, and anything else
/// `magic:0x` and the magic number in hexadecimal.
pub open spec fn spec_inode_type_desc(magic: u64, mode: u16) -> Seq<char> {
    let anon = magic == ANON_INODE_FS_MAGIC as u64;
    let known = FsType::spec_try_from((magic % 0x1_0000_0000) as u32);
    let t = (mode as u32) & S_IFMT;
    if known is Ok && !anon {
        known->Ok_0.spec_short_name()
    } else if t == S_IFIFO || t == S_IFCHR || t == S_IFDIR || t == S_IFBLK || t == S_IFREG || t
        == S_IFLNK {
        if anon {
            "anon_inode:["@ + spec_mode_desc(anon, mode) + "]"@
        } else {
            spec_mode_desc(anon, mode)
        }
    } else if t == S_IFSOCK {
        "socket"@
    } else if anon {
        "anon_inode:[unknown]"@
    } else {
        "magic:0x"@ + hex(magic as nat)
    }
}

fn mode_desc(anon: bool, mode: u16) -> (s: &'static str)
    ensures
        s@ == spec_mode_desc(anon, mode),
{
    let t: u32 = (mode as u32) & S_IFMT;
    if t == S_IFIFO {
        "fifo"
    } else if t == S_IFCHR {
        "char_dev"
    } else if t == S_IFDIR {
        "dir"
    } else if t == S_IFBLK {
        "block_dev"
    } else if t == S_IFREG {
        if anon {
            "anon_inode_file"
        } else {
            "regular_file"
        }
    } else if t == S_IFLNK {
        "symlink"
    } else if t == S_IFSOCK {
        "socket"
    } else {
        ""
    }
}

/// Describes what kind of thing an inode is.
pub fn get_inode_type_desc(magic: u64, mode: u16) -> (s: String)
    ensures
        s@ == spec_inode_type_desc(magic, mode),
{
    let anon: bool = magic == ANON_INODE_FS_MAGIC as u64;
    let low: u64 = magic & 0xffff_ffff;
    proof {
        assert(magic & 0xffff_ffff == magic % 0x1_0000_0000) by (bit_vector);
    }
    match FsType::try_from(low as u32) {
        Ok(fs) => {
            if !anon {
                return String::from_str(fs.short_name());
            }
        },
        Err(_) => {},
    }
    let t: u32 = (mode as u32) & S_IFMT;
    let desc = mode_desc(anon, mode);
    if t == S_IFIFO || t == S_IFCHR || t == S_IFDIR || t == S_IFBLK || t == S_IFREG || t
        == S_IFLNK {
        if anon {
            let mut s = String::from_str("anon_inode:[");
            s.append(desc);
            s.append("]");
            s
        } else {
            String::from_str(desc)
        }
    } else if t == S_IFSOCK {
        String::from_str(desc)
    } else if anon {
        String::from_str("anon_inode:[unknown]")
    } else {
        let mut s = String::from_str("magic:0x");
        push_hex(&mut s, magic);
        s
    }
}

/// The character for the file type in a mode.
pub open spec fn spec_type_char(mode: u16) -> char {
    let t = (mode as u32) & S_IFMT;
    if t == S_IFSOCK {
        's'
    } else if t == S_IFLNK {
        'l'
    } else if t == S_IFREG {
        '-'
    } else if t == S_IFBLK {
        'b'
    } else if t == S_IFDIR {
        'd'
    } else if t == S_IFCHR {
        'c'
    } else if t == S_IFIFO {
        'p'
    } else {
        '?'
    }
}

/// The letter `c` where the bit `mask` is set in `mode`, else `-`.
pub open spec fn spec_perm_char(mode: u16, mask: u16, c: char) -> char {
    if mode & mask != 0 {
        c
    } else {
        '-'
    }
}

/// A mode in ten characters: the file type, then `rwx` for the owner, the
/// group and the others.
pub open spec fn spec_mode_to_string(mode: u16) -> Seq<char> {
    seq![
        spec_type_char(mode),
        spec_perm_char(mode, 0o400, 'r'),
        spec_perm_char(mode, 0o200, 'w'),
        spec_perm_char(mode, 0o100, 'x'),
        spec_perm_char(mode, 0o040, 'r'),
        spec_perm_char(mode, 0o020, 'w'),
        spec_perm_char(mode, 0o010, 'x'),
        spec_perm_char(mode, 0o004, 'r'),
        spec_perm_char(mode, 0o002, 'w'),
        spec_perm_char(mode, 0o001, 'x'),
    ]
}

fn type_char(mode: u16) -> (c: char)
    ensures
        c == spec_type_char(mode),
{
    let t: u32 = (mode as u32) & S_IFMT;
    if t == S_IFSOCK {
        's'
    } else if t == S_IFLNK {
        'l'
    } else if t == S_IFREG {
        '-'
    } else if t == S_IFBLK {
        'b'
    } else if t == S_IFDIR {
        'd'
    } else if t == S_IFCHR {
        'c'
    } else if t == S_IFIFO {
        'p'
    } else {
        '?'
    }
}

fn perm_char(mode: u16, mask: u16, c: char) -> (r: char)
    ensures
        r == spec_perm_char(mode, mask, c),
{
    if mode & mask != 0 {
        c
    } else {
        '-'
    }
}

/// Writes a mode as a directory listing does.
pub fn mode_to_string(mode: u16) -> (s: String)
    ensures
        s@ == spec_mode_to_string(mode),
{
    let mut out = String::new();
    push_char(&mut out, type_char(mode));
    let mut group: u16 = 0;
    while group < 3
        invariant
            0 <= group <= 3,
            out@ == spec_mode_to_string(mode).subrange(0, 1 + 3 * group),
        decreases 3 - group,
    {
        let shift: u16 = 6 - 3 * group;
        let r: u16 = 4u16 << shift;
        let w: u16 = 2u16 << shift;
        let x: u16 = 1u16 << shift;
        proof {
            assert(4u16 << 6u16 == 0o400 && 2u16 << 6u16 == 0o200 && 1u16 << 6u16 == 0o100)
                by (bit_vector);
            assert(4u16 << 3u16 == 0o040 && 2u16 << 3u16 == 0o020 && 1u16 << 3u16 == 0o010)
                by (bit_vector);
            assert(4u16 << 0u16 == 0o004 && 2u16 << 0u16 == 0o002 && 1u16 << 0u16 == 0o001)
                by (bit_vector);
        }
        push_char(&mut out, perm_char(mode, r, 'r'));
        push_char(&mut out, perm_char(mode, w, 'w'));
        push_char(&mut out, perm_char(mode, x, 'x'));
        group = group + 1;
        assert(out@ =~= spec_mode_to_string(mode).subrange(0, 1 + 3 * group));
    }
    assert(spec_mode_to_string(mode).subrange(0, 10) =~= spec_mode_to_string(mode));
    out
}

/// `<major>,<minor>`, the numbers read as user space does.
pub open spec fn spec_device_numbers(dev: u32) -> Seq<char> {
    decimal(spec_user_major(dev as u64) as nat) + ","@ + decimal(
        spec_user_minor(dev as u64) as nat,
    )
}

/// Where the name of a device is read, the numbers read as user space
/// does: `/sys/dev/block/<major>:<minor>/uevent`.
pub open spec fn spec_dev_uevent_path(dev: u32) -> Seq<char> {
    "/sys/dev/block/"@ + decimal(spec_user_major(dev as u64) as nat) + ":"@ + decimal(
        spec_user_minor(dev as u64) as nat,
    ) + "/uevent"@
}

/// The file from which `dev_name_from_dev` takes the name of a device.
pub fn dev_uevent_path(dev: u32) -> (s: String)
    ensures
        s@ == spec_dev_uevent_path(dev),
{
    let (maj, min) = major_minor(dev);
    let mut s = String::from_str("/sys/dev/block/");
    push_decimal(&mut s, maj as u64);
    s.append(":");
    push_decimal(&mut s, min as u64);
    s.append("/uevent");
    s
}

/// The name of a device, from the text of its `uevent` file where that was
/// read: nothing where it was not, or names no device.
pub fn dev_name_from_dev(uevent: Option<&str>) -> (r: Option<String>)
    ensures
        match uevent {
            Some(content) => match spec_dev_name(content.spec_bytes()) {
                Some(b) => r matches Some(name) && name@ == utf8_lossy(b),
                None => r is None,
            },
            None => r is None,
        },
{
    match uevent {
        Some(content) => dev_name_from_uevent(content),
        None => None,
    }
}

fn device_numbers(dev: u32) -> (s: String)
    ensures
        s@ == spec_device_numbers(dev),
{
    let (maj, min) = major_minor(dev);
    let mut s = String::new();
    push_decimal(&mut s, maj as u64);
    s.append(",");
    push_decimal(&mut s, min as u64);
    assert(s@ =~= spec_device_numbers(dev));
    s
}

/// `n` spaces.
pub open spec fn spaces(n: int) -> Seq<char> {
    Seq::new(
        if n > 0 {
            n as nat
        } else {
            0
        },
        |i: int| ' ',
    )
}

/// A text, followed by spaces up to `width` characters.
pub open spec fn padded(text: Seq<char>, width: int) -> Seq<char> {
    text + spaces(width - text.len())
}

fn push_padded(out: &mut String, text: &str, width: usize)
    ensures
        final(out)@ == old(out)@ + padded(text@, width as int),
{
    out.append(text);
    let n: usize = text.unicode_len();
    let mut i: usize = n;
    while i < width
        invariant
            n == text@.len(),
            n <= i,
            i <= width || i == n,
            out@ == old(out)@ + text@ + spaces(i - n),
        decreases width - i,
    {
        push_char(out, ' ');
        i = i + 1;
        assert(out@ =~= old(out)@ + text@ + spaces(i - n));
    }
    assert(out@ =~= old(out)@ + padded(text@, width as int));
}

/// What stands in the size column: the device numbers for a device, a dash
/// for a socket or a pipe, and the size of the access for anything else.
pub open spec fn spec_size_field(event: FileAccessEvent) -> Seq<char> {
    let c = spec_type_char(event.i_mode);
    if c == 'c' || c == 'b' {
        spec_device_numbers(event.dev)
    } else if c == 's' || c == 'p' {
        "-"@
    } else {
        spec_human_size(event.bytes)
    }
}

/// What stands in the device column: the name of the device where the
/// `uevent` text gives one, else its numbers.
pub open spec fn spec_dev_display(event: FileAccessEvent, name: Option<Seq<char>>) -> Seq<char> {
    match name {
        Some(n) => n,
        None => spec_device_numbers(event.dev),
    }
}

/// The line for an event, given the name found for its device.
pub open spec fn spec_line(event: FileAccessEvent, name: Option<Seq<char>>) -> Seq<char> {
    padded(event.event_type.spec_kind_name(), 10) + " "@ + spec_mode_to_string(event.i_mode)
        + " "@ + padded(decimal(event.tgid as nat), 10) + ":"@ + padded(
        decimal(event.tid as nat),
        10,
    ) + " "@ + padded(utf8_lossy(c_str_bytes(event.comm@)), 16) + " "@ + padded(
        spec_size_field(event),
        8,
    ) + " "@ + padded(spec_dev_display(event, name), 10) + " "@ + padded(
        spec_inode_type_desc(event.s_magic, event.i_mode),
        18,
    ) + " "@ + utf8_lossy(c_str_bytes(event.path@))
}

/// The text of a name, if there is one.
pub open spec fn text_of(name: &Option<String>) -> Option<Seq<char>> {
    match name {
        Some(n) => Some(n@),
        None => None,
    }
}

/// Showing an event.
pub trait EventExt: Sized {
    /// The event that is shown.
    spec fn event(&self) -> FileAccessEvent;

    /// The line for the event: its kind, mode, process and thread, the name
    /// of the process, the size, the device, the kind of inode and the path,
    /// in columns. `dev_name` is the name found for the device, if any.
    fn process(self, dev_name: Option<String>) -> (r: Result<String, String>)
        ensures
            r matches Ok(line) && line@ == spec_line(self.event(), text_of(&dev_name)),
    ;
}

impl EventExt for FileAccessEvent {
    open spec fn event(&self) -> FileAccessEvent {
        *self
    }

    fn process(self, dev_name: Option<String>) -> (r: Result<String, String>) {
        let comm = crate::text::c_str_lossy(self.comm.as_slice());
        let path = crate::text::c_str_lossy(self.path.as_slice());
        let perms = mode_to_string(self.i_mode);
        let inode_desc = get_inode_type_desc(self.s_magic, self.i_mode);
        let ghost name = text_of(&dev_name);
        let dev_display = match dev_name {
            Some(n) => n,
            None => device_numbers(self.dev),
        };
        let first = type_char(self.i_mode);
        let size_field = if first == 'c' || first == 'b' {
            device_numbers(self.dev)
        } else if first == 's' || first == 'p' {
            String::from_str("-")
        } else {
            human_size(self.bytes)
        };
        let tgid = crate::fmt::decimal_string(self.tgid as u64);
        let tid = crate::fmt::decimal_string(self.tid as u64);
        let mut line = String::new();
        push_padded(&mut line, self.event_type.kind_name(), 10);
        line.append(" ");
        line.append(perms.as_str());
        line.append(" ");
        push_padded(&mut line, tgid.as_str(), 10);
        line.append(":");
        push_padded(&mut line, tid.as_str(), 10);
        line.append(" ");
        push_padded(&mut line, comm.as_str(), 16);
        line.append(" ");
        push_padded(&mut line, size_field.as_str(), 8);
        line.append(" ");
        push_padded(&mut line, dev_display.as_str(), 10);
        line.append(" ");
        push_padded(&mut line, inode_desc.as_str(), 18);
        line.append(" ");
        line.append(path.as_str());
        assert(line@ =~= spec_line(self, name));
        Ok(line)
    }
}

} // verus!

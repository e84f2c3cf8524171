//! The wire event: a fixed-layout, little-endian record of 320 bytes.
//!
//! Layout, by byte offset: `inode` 0, `bytes` 8, `tid` 16, `tgid` 20,
//! `dev` 24, `event_type` 28, `comm` 32, `s_magic` 48, `i_mode` 56,
//! padding 58, `path` 64.

use vstd::prelude::*;

verus! {

/// Length of the process name snapshot.
pub const COMM_LEN: usize = 16;

/// Length of the path field.
pub const PATH_LEN: usize = 256;

/// Total size of one encoded event.
pub const EVENT_SIZE: usize = 320;

/// Code that an event of unknown type is encoded with.
pub const UNKNOWN_CODE: u32 = 0xffff_ffff;

/// What kind of access an event reports.
#[derive(Clone, Copy, Debug, PartialEq, Eq, Structural)]
pub enum EventType {
    MmapRead,
    MmapWrite,
    NullPage,
    VfsRead,
    VfsWrite,
    VfsReadv,
    VfsWritev,
    /// Any code that names no known kind.
    Unknown,
}

impl EventType {
    /// The code of each kind on the wire.
    pub open spec fn spec_code(self) -> u32 {
        match self {
            EventType::MmapRead => 0,
            EventType::MmapWrite => 1,
            EventType::NullPage => 3,
            EventType::VfsRead => 20,
            EventType::VfsWrite => 30,
            EventType::VfsReadv => 40,
            EventType::VfsWritev => 50,
            EventType::Unknown => UNKNOWN_CODE,
        }
    }

    /// The kind that a code stands for; every code that names none is `Unknown`.
    pub open spec fn spec_from_code(code: u32) -> EventType {
        if code == 0 {
            EventType::MmapRead
        } else if code == 1 {
            EventType::MmapWrite
        } else if code == 3 {
            EventType::NullPage
        } else if code == 20 {
            EventType::VfsRead
        } else if code == 30 {
            EventType::VfsWrite
        } else if code == 40 {
            EventType::VfsReadv
        } else if code == 50 {
            EventType::VfsWritev
        } else {
            EventType::Unknown
        }
    }

    pub fn code(self) -> (c: u32)
        ensures
            c == self.spec_code(),
    {
        match self {
            EventType::MmapRead => 0,
            EventType::MmapWrite => 1,
            EventType::NullPage => 3,
            EventType::VfsRead => 20,
            EventType::VfsWrite => 30,
            EventType::VfsReadv => 40,
            EventType::VfsWritev => 50,
            EventType::Unknown => UNKNOWN_CODE,
        }
    }

    pub fn from_code(code: u32) -> (t: EventType)
        ensures
            t == Self::spec_from_code(code),
    {
        match code {
            0 => EventType::MmapRead,
            1 => EventType::MmapWrite,
            3 => EventType::NullPage,
            20 => EventType::VfsRead,
            30 => EventType::VfsWrite,
            40 => EventType::VfsReadv,
            50 => EventType::VfsWritev,
            _ => EventType::Unknown,
        }
    }

    /// Decoding the code of a kind gives the kind back.
    pub proof fn lemma_code_round_trip(t: EventType)
        ensures
            Self::spec_from_code(t.spec_code()) == t,
    {
    }

    /// A code decodes to a known kind exactly when it is one of the seven codes.
    pub proof fn lemma_unknown_iff_invalid(code: u32)
        ensures
            Self::spec_from_code(code) == EventType::Unknown <==> !(code == 0 || code == 1 || code
                == 3 || code == 20 || code == 30 || code == 40 || code == 50),
    {
    }
}

/// One observed file access.
#[derive(Clone, Copy, Debug, PartialEq, Eq)]
pub struct FileAccessEvent {
    pub inode: u64,
    pub bytes: u64,
    pub tid: u32,
    pub tgid: u32,
    pub dev: u32,
    pub event_type: EventType,
    pub comm: [u8; 16],
    pub s_magic: u64,
    pub i_mode: u16,
    pub path: [u8; 256],
}

/// The two bytes of a `u16`, least significant first.
pub open spec fn le16(x: u16) -> Seq<u8> {
    seq![(x % 256) as u8, (x / 256) as u8]
}

/// The four bytes of a `u32`, least significant first.
pub open spec fn le32(x: u32) -> Seq<u8> {
    seq![
        (x % 256) as u8,
        (x / 0x100 % 256) as u8,
        (x / 0x1_0000 % 256) as u8,
        (x / 0x100_0000) as u8,
    ]
}

/// The eight bytes of a `u64`, least significant first.
pub open spec fn le64(x: u64) -> Seq<u8> {
    seq![
        (x % 256) as u8,
        (x / 0x100 % 256) as u8,
        (x / 0x1_0000 % 256) as u8,
        (x / 0x100_0000 % 256) as u8,
        (x / 0x1_0000_0000 % 256) as u8,
        (x / 0x100_0000_0000 % 256) as u8,
        (x / 0x1_0000_0000_0000 % 256) as u8,
        (x / 0x100_0000_0000_0000) as u8,
    ]
}

/// The `u16` that two bytes at offset `o` encode.
pub open spec fn read16(s: Seq<u8>, o: int) -> u16 {
    (s[o] as int + 0x100 * s[o + 1] as int) as u16
}

/// The `u32` that four bytes at offset `o` encode.
pub open spec fn read32(s: Seq<u8>, o: int) -> u32 {
    (s[o] as int + 0x100 * s[o + 1] as int + 0x1_0000 * s[o + 2] as int + 0x100_0000 * s[o
        + 3] as int) as u32
}

/// The `u64` that eight bytes at offset `o` encode.
pub open spec fn read64(s: Seq<u8>, o: int) -> u64 {
    (s[o] as int + 0x100 * s[o + 1] as int + 0x1_0000 * s[o + 2] as int + 0x100_0000 * s[o
        + 3] as int + 0x1_0000_0000 * s[o + 4] as int + 0x100_0000_0000 * s[o + 5] as int
        + 0x1_0000_0000_0000 * s[o + 6] as int + 0x100_0000_0000_0000 * s[o + 7] as int) as u64
}


/// Six zero bytes: the padding after `i_mode`.
pub open spec fn padding() -> Seq<u8> {
    seq![0u8, 0u8, 0u8, 0u8, 0u8, 0u8]
}

/// The 320 bytes that encode an event.
pub open spec fn wire(e: FileAccessEvent) -> Seq<u8> {
    le64(e.inode) + le64(e.bytes) + le32(e.tid) + le32(e.tgid) + le32(e.dev) + le32(
        e.event_type.spec_code(),
    ) + e.comm@ + le64(e.s_magic) + le16(e.i_mode) + padding() + e.path@
}

/// `e` is the event that the 320 bytes `b` encode. The padding is not looked at.
pub open spec fn decodes(b: Seq<u8>, e: FileAccessEvent) -> bool {
    &&& b.len() == EVENT_SIZE
    &&& e.inode == read64(b, 0)
    &&& e.bytes == read64(b, 8)
    &&& e.tid == read32(b, 16)
    &&& e.tgid == read32(b, 20)
    &&& e.dev == read32(b, 24)
    &&& e.event_type == EventType::spec_from_code(read32(b, 28))
    &&& e.comm@ == b.subrange(32, 48)
    &&& e.s_magic == read64(b, 48)
    &&& e.i_mode == read16(b, 56)
    &&& e.path@ == b.subrange(64, 320)
}

fn push16(out: &mut Vec<u8>, x: u16)
    ensures
        final(out)@ == old(out)@ + le16(x),
{
    out.push((x % 256) as u8);
    out.push((x / 256) as u8);
    assert(out@ =~= old(out)@ + le16(x));
}

fn push32(out: &mut Vec<u8>, x: u32)
    ensures
        final(out)@ == old(out)@ + le32(x),
{
    out.push((x % 256) as u8);
    out.push((x / 0x100 % 256) as u8);
    out.push((x / 0x1_0000 % 256) as u8);
    out.push((x / 0x100_0000) as u8);
    assert(out@ =~= old(out)@ + le32(x));
}

fn push64(out: &mut Vec<u8>, x: u64)
    ensures
        final(out)@ == old(out)@ + le64(x),
{
    out.push((x % 256) as u8);
    out.push((x / 0x100 % 256) as u8);
    out.push((x / 0x1_0000 % 256) as u8);
    out.push((x / 0x100_0000 % 256) as u8);
    out.push((x / 0x1_0000_0000 % 256) as u8);
    out.push((x / 0x100_0000_0000 % 256) as u8);
    out.push((x / 0x1_0000_0000_0000 % 256) as u8);
    out.push((x / 0x100_0000_0000_0000) as u8);
    assert(out@ =~= old(out)@ + le64(x));
}

fn push_all(out: &mut Vec<u8>, bytes: &[u8])
    ensures
        final(out)@ == old(out)@ + bytes@,
{
    let mut i: usize = 0;
    while i < bytes.len()
        invariant
            0 <= i <= bytes.len(),
            out@ == old(out)@ + bytes@.subrange(0, i as int),
        decreases bytes.len() - i,
    {
        out.push(bytes[i]);
        i = i + 1;
        assert(out@ =~= old(out)@ + bytes@.subrange(0, i as int));
    }
    assert(bytes@.subrange(0, i as int) =~= bytes@);
}

fn get16(b: &[u8], o: usize) -> (x: u16)
    requires
        o + 2 <= b@.len(),
    ensures
        x == read16(b@, o as int),
{
    b[o] as u16 + 0x100 * (b[o + 1] as u16)
}

fn get32(b: &[u8], o: usize) -> (x: u32)
    requires
        o + 4 <= b@.len(),
    ensures
        x == read32(b@, o as int),
{
    b[o] as u32 + 0x100 * (b[o + 1] as u32) + 0x1_0000 * (b[o + 2] as u32) + 0x100_0000 * (b[o
        + 3] as u32)
}

fn get64(b: &[u8], o: usize) -> (x: u64)
    requires
        o + 8 <= b@.len(),
    ensures
        x == read64(b@, o as int),
{
    b[o] as u64 + 0x100 * (b[o + 1] as u64) + 0x1_0000 * (b[o + 2] as u64) + 0x100_0000 * (b[o
        + 3] as u64) + 0x1_0000_0000 * (b[o + 4] as u64) + 0x100_0000_0000 * (b[o + 5] as u64)
        + 0x1_0000_0000_0000 * (b[o + 6] as u64) + 0x100_0000_0000_0000 * (b[o + 7] as u64)
}

impl FileAccessEvent {
    /// Every field zero: no process, no file, an empty name and path.
    pub open spec fn is_zeroed(self) -> bool {
        &&& self.inode == 0
        &&& self.bytes == 0
        &&& self.tid == 0
        &&& self.tgid == 0
        &&& self.dev == 0
        &&& self.event_type == EventType::MmapRead
        &&& self.comm@ == Seq::new(COMM_LEN as nat, |i: int| 0u8)
        &&& self.s_magic == 0
        &&& self.i_mode == 0
        &&& self.path@ == Seq::new(PATH_LEN as nat, |i: int| 0u8)
    }

    /// The event whose encoding is 320 zero bytes.
    pub fn zeroed() -> (e: FileAccessEvent)
        ensures
            e.is_zeroed(),
    {
        let e = FileAccessEvent {
            inode: 0,
            bytes: 0,
            tid: 0,
            tgid: 0,
            dev: 0,
            event_type: EventType::MmapRead,
            comm: [0u8; 16],
            s_magic: 0,
            i_mode: 0,
            path: [0u8; 256],
        };
        assert(e.comm@ =~= Seq::new(COMM_LEN as nat, |i: int| 0u8));
        assert(e.path@ =~= Seq::new(PATH_LEN as nat, |i: int| 0u8));
        e
    }

    /// Encodes the event.
    pub fn to_bytes(&self) -> (out: Vec<u8>)
        ensures
            out@ == wire(*self),
            out@.len() == EVENT_SIZE,
    {
        let mut out: Vec<u8> = Vec::with_capacity(EVENT_SIZE);
        push64(&mut out, self.inode);
        push64(&mut out, self.bytes);
        push32(&mut out, self.tid);
        push32(&mut out, self.tgid);
        push32(&mut out, self.dev);
        push32(&mut out, self.event_type.code());
        push_all(&mut out, self.comm.as_slice());
        push64(&mut out, self.s_magic);
        push16(&mut out, self.i_mode);
        let mut i: usize = 0;
        while i < 6
            invariant
                0 <= i <= 6,
                out@ == le64(self.inode) + le64(self.bytes) + le32(self.tid) + le32(self.tgid)
                    + le32(self.dev) + le32(self.event_type.spec_code()) + self.comm@ + le64(
                    self.s_magic,
                ) + le16(self.i_mode) + padding().subrange(0, i as int),
            decreases 6 - i,
        {
            out.push(0u8);
            i = i + 1;
            assert(out@ =~= le64(self.inode) + le64(self.bytes) + le32(self.tid) + le32(self.tgid)
                + le32(self.dev) + le32(self.event_type.spec_code()) + self.comm@ + le64(
                self.s_magic,
            ) + le16(self.i_mode) + padding().subrange(0, i as int));
        }
        assert(padding().subrange(0, 6) =~= padding());
        push_all(&mut out, self.path.as_slice());
        out
    }

    /// Decodes an event. Bytes that are not exactly one event decode to
    /// nothing; a code that names no kind of event decodes to `Unknown`.
    pub fn from_bytes(b: &[u8]) -> (r: Option<FileAccessEvent>)
        ensures
            r is Some <==> b@.len() == EVENT_SIZE,
            r matches Some(e) ==> decodes(b@, e),
    {
        if b.len() != EVENT_SIZE {
            return None;
        }
        let mut comm: [u8; 16] = [0u8; 16];
        let mut i: usize = 0;
        while i < 16
            invariant
                0 <= i <= 16,
                b@.len() == EVENT_SIZE,
                forall|j: int| 0 <= j < i ==> comm@[j] == b@[32 + j],
            decreases 16 - i,
        {
            comm[i] = b[32 + i];
            i = i + 1;
        }
        let mut path: [u8; 256] = [0u8; 256];
        let mut k: usize = 0;
        while k < 256
            invariant
                0 <= k <= 256,
                b@.len() == EVENT_SIZE,
                forall|j: int| 0 <= j < k ==> path@[j] == b@[64 + j],
            decreases 256 - k,
        {
            path[k] = b[64 + k];
            k = k + 1;
        }
        let e = FileAccessEvent {
            inode: get64(b, 0),
            bytes: get64(b, 8),
            tid: get32(b, 16),
            tgid: get32(b, 20),
            dev: get32(b, 24),
            event_type: EventType::from_code(get32(b, 28)),
            comm,
            s_magic: get64(b, 48),
            i_mode: get16(b, 56),
            path,
        };
        assert(e.comm@ =~= b@.subrange(32, 48));
        assert(e.path@ =~= b@.subrange(64, 320));
        Some(e)
    }
}

/// Two events with the same fields, arrays taken by their contents, are one.
pub proof fn lemma_event_ext(a: FileAccessEvent, b: FileAccessEvent)
    requires
        a.inode == b.inode,
        a.bytes == b.bytes,
        a.tid == b.tid,
        a.tgid == b.tgid,
        a.dev == b.dev,
        a.event_type == b.event_type,
        a.comm@ == b.comm@,
        a.s_magic == b.s_magic,
        a.i_mode == b.i_mode,
        a.path@ == b.path@,
    ensures
        a == b,
{
    assert(a.comm =~= b.comm);
    assert(a.path =~= b.path);
}

proof fn lemma_read16(b: Seq<u8>, o: int, x: u16)
    requires
        0 <= o,
        o + 2 <= b.len(),
        b.subrange(o, o + 2) == le16(x),
    ensures
        read16(b, o) == x,
{
    let s = b.subrange(o, o + 2);
    assert(s[0] == b[o] && s[1] == b[o + 1]);
}

proof fn lemma_read32(b: Seq<u8>, o: int, x: u32)
    requires
        0 <= o,
        o + 4 <= b.len(),
        b.subrange(o, o + 4) == le32(x),
    ensures
        read32(b, o) == x,
{
    let s = b.subrange(o, o + 4);
    assert(s[0] == b[o] && s[1] == b[o + 1] && s[2] == b[o + 2] && s[3] == b[o + 3]);
}

proof fn lemma_read64(b: Seq<u8>, o: int, x: u64)
    requires
        0 <= o,
        o + 8 <= b.len(),
        b.subrange(o, o + 8) == le64(x),
    ensures
        read64(b, o) == x,
{
    let s = b.subrange(o, o + 8);
    assert(s[0] == b[o] && s[1] == b[o + 1] && s[2] == b[o + 2] && s[3] == b[o + 3]);
    assert(s[4] == b[o + 4] && s[5] == b[o + 5] && s[6] == b[o + 6] && s[7] == b[o + 7]);
    assert(x == (x % 256) + 0x100 * (x / 0x100 % 256) + 0x1_0000 * (x / 0x1_0000 % 256)
        + 0x100_0000 * (x / 0x100_0000 % 256) + 0x1_0000_0000 * (x / 0x1_0000_0000 % 256)
        + 0x100_0000_0000 * (x / 0x100_0000_0000 % 256) + 0x1_0000_0000_0000 * (x
        / 0x1_0000_0000_0000 % 256) + 0x100_0000_0000_0000 * (x / 0x100_0000_0000_0000))
        by (bit_vector);
}

/// Where each field stands in an encoding.
pub proof fn lemma_wire_layout(e: FileAccessEvent)
    ensures
        wire(e).len() == EVENT_SIZE,
        wire(e).subrange(0, 8) == le64(e.inode),
        wire(e).subrange(8, 16) == le64(e.bytes),
        wire(e).subrange(16, 20) == le32(e.tid),
        wire(e).subrange(20, 24) == le32(e.tgid),
        wire(e).subrange(24, 28) == le32(e.dev),
        wire(e).subrange(28, 32) == le32(e.event_type.spec_code()),
        wire(e).subrange(32, 48) == e.comm@,
        wire(e).subrange(48, 56) == le64(e.s_magic),
        wire(e).subrange(56, 58) == le16(e.i_mode),
        wire(e).subrange(58, 64) == padding(),
        wire(e).subrange(64, 320) == e.path@,
{
    let upto1 = le64(e.inode);
    let upto2 = upto1 + le64(e.bytes);
    let upto3 = upto2 + le32(e.tid);
    let upto4 = upto3 + le32(e.tgid);
    let upto5 = upto4 + le32(e.dev);
    let upto6 = upto5 + le32(e.event_type.spec_code());
    let upto7 = upto6 + e.comm@;
    let upto8 = upto7 + le64(e.s_magic);
    let upto9 = upto8 + le16(e.i_mode);
    let upto10 = upto9 + padding();
    let w = upto10 + e.path@;
    assert(w == wire(e));
    assert(upto1.len() == 8 && upto2.len() == 16 && upto3.len() == 20 && upto4.len() == 24);
    assert(upto5.len() == 28 && upto6.len() == 32 && upto7.len() == 48 && upto8.len() == 56);
    assert(upto9.len() == 58 && upto10.len() == 64 && w.len() == 320);
    assert(w.subrange(64, 320) =~= e.path@);
    assert(w.subrange(0, 64) =~= upto10);
    assert(upto10.subrange(58, 64) =~= padding());
    assert(upto10.subrange(0, 58) =~= upto9);
    assert(upto9.subrange(56, 58) =~= le16(e.i_mode));
    assert(upto9.subrange(0, 56) =~= upto8);
    assert(upto8.subrange(48, 56) =~= le64(e.s_magic));
    assert(upto8.subrange(0, 48) =~= upto7);
    assert(upto7.subrange(32, 48) =~= e.comm@);
    assert(upto7.subrange(0, 32) =~= upto6);
    assert(upto6.subrange(28, 32) =~= le32(e.event_type.spec_code()));
    assert(upto6.subrange(0, 28) =~= upto5);
    assert(upto5.subrange(24, 28) =~= le32(e.dev));
    assert(upto5.subrange(0, 24) =~= upto4);
    assert(upto4.subrange(20, 24) =~= le32(e.tgid));
    assert(upto4.subrange(0, 20) =~= upto3);
    assert(upto3.subrange(16, 20) =~= le32(e.tid));
    assert(upto3.subrange(0, 16) =~= upto2);
    assert(upto2.subrange(8, 16) =~= le64(e.bytes));
    assert(upto2.subrange(0, 8) =~= upto1);
    assert(w.subrange(58, 64) =~= w.subrange(0, 64).subrange(58, 64));
    assert(w.subrange(56, 58) =~= w.subrange(0, 64).subrange(0, 58).subrange(56, 58));
    assert(w.subrange(48, 56) =~= upto8.subrange(48, 56));
    assert(w.subrange(32, 48) =~= upto7.subrange(32, 48));
    assert(w.subrange(28, 32) =~= upto6.subrange(28, 32));
    assert(w.subrange(24, 28) =~= upto5.subrange(24, 28));
    assert(w.subrange(20, 24) =~= upto4.subrange(20, 24));
    assert(w.subrange(16, 20) =~= upto3.subrange(16, 20));
    assert(w.subrange(8, 16) =~= upto2.subrange(8, 16));
    assert(w.subrange(0, 8) =~= upto1);
}

/// An encoding decodes to the event that was encoded, and to no other.
pub proof fn lemma_wire_round_trip(e: FileAccessEvent, d: FileAccessEvent)
    ensures
        wire(e).len() == EVENT_SIZE,
        decodes(wire(e), e),
        decodes(wire(e), d) ==> d == e,
{
    let b = wire(e);
    lemma_wire_layout(e);
    EventType::lemma_code_round_trip(e.event_type);
    lemma_read64(b, 0, e.inode);
    lemma_read64(b, 8, e.bytes);
    lemma_read32(b, 16, e.tid);
    lemma_read32(b, 20, e.tgid);
    lemma_read32(b, 24, e.dev);
    lemma_read32(b, 28, e.event_type.spec_code());
    lemma_read64(b, 48, e.s_magic);
    lemma_read16(b, 56, e.i_mode);
    if decodes(b, d) {
        lemma_event_ext(d, e);
    }
}

} // verus!

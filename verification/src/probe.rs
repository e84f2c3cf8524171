//! What the probe handlers decide: whose accesses are reported, how many
//! bytes an access moves, and the event that is published for it.
//!
//! A handler reads the kernel's state and publishes into the event channel;
//! here it is a function from what was read to the event to publish. Every
//! read stands as its value or as the code of the fault that it met, and the
//! first fault that a handler needs to look at ends it with that code and
//! without an event.

use crate::event::{EventType, FileAccessEvent, PATH_LEN};
use crate::mount::MountTree;
use crate::path::{
    d_path_local, spec_resolve, BufferHeap, PathRef, ResolveContext, StepOutcome, HEAP_LEN,
    MAX_BUF_LEN, MAX_STEPS,
};
use vstd::prelude::*;

verus! {

/// Number of process identifiers in the self-exclusion list.
pub const FILTER_LEN: usize = 16;

/// How many entries of an I/O vector are counted; the rest is ignored.
pub const MAX_IOVEC: usize = 31;

/// The fault is a write.
pub const FAULT_FLAG_WRITE: u32 = 0x01;

/// The fault makes a read-only page writable.
pub const FAULT_FLAG_MKWRITE: u32 = 0x02;

/// Number of events that the channel holds.
pub const N_EVENTS: usize = 16384;

/// Size of the channel in bytes: `N_EVENTS` events of 320 bytes.
pub const RB_CAP: u32 = 5242880;

/// What the loader fixes before the probes run. Nothing changes it later.
pub struct ProbeConfig {
    /// The exporter's own process and its ancestors; unused places hold 0.
    pub filter_tgids: [u32; 16],
    /// Bytes in one page of memory.
    pub page_size: u64,
    /// The flag that marks the first page of a compound page.
    pub page_head_mask: u64,
}

/// The calling task.
pub struct Task {
    /// Process identifier in the upper half, thread identifier in the lower.
    pub pid_tgid: u64,
    pub comm: Result<[u8; 16], i64>,
    pub root: PathRef,
}

/// The file that an access touches.
#[derive(Clone, Copy, Debug, PartialEq, Eq, Structural)]
pub struct FileInfo {
    pub inode: u64,
    pub dev: u32,
    pub s_magic: u64,
    pub i_mode: u16,
    pub path: PathRef,
}

/// One entry of an I/O vector.
#[derive(Clone, Copy, Debug, PartialEq, Eq, Structural)]
pub struct IoVec {
    pub iov_base: u64,
    pub iov_len: u64,
}

/// What the page fault handler reads about the fault.
pub struct FaultReads {
    pub flags: Result<u32, i64>,
    /// The address of the faulted page; 0 where there is none.
    pub page: Result<u64, i64>,
    pub page_flags: Result<u64, i64>,
    /// The order of the compound page, kept in the page after its first.
    pub order: Result<u8, i64>,
}

/// The process identifier in a task's identifier pair.
pub open spec fn tgid_of(pid_tgid: u64) -> u32 {
    (pid_tgid / 0x1_0000_0000) as u32
}

/// The thread identifier in a task's identifier pair.
pub open spec fn tid_of(pid_tgid: u64) -> u32 {
    (pid_tgid % 0x1_0000_0000) as u32
}

impl ProbeConfig {
    /// The process is the exporter itself or one of its ancestors.
    pub open spec fn excludes(&self, tgid: u32) -> bool {
        self.filter_tgids@.contains(tgid)
    }

    /// The identifiers of a task that is reported, process first; nothing
    /// for a task that is excluded.
    pub open spec fn spec_filter_tgids(&self, pid_tgid: u64) -> Option<(u32, u32)> {
        if self.excludes(tgid_of(pid_tgid)) {
            None
        } else {
            Some((tgid_of(pid_tgid), tid_of(pid_tgid)))
        }
    }

    /// Splits a task's identifier pair and drops the task if its process is
    /// in the self-exclusion list.
    pub fn filter_tgids(&self, pid_tgid: u64) -> (r: Option<(u32, u32)>)
        ensures
            r == self.spec_filter_tgids(pid_tgid),
    {
        proof {
            assert(pid_tgid >> 32 == pid_tgid / 0x1_0000_0000) by (bit_vector);
            assert(pid_tgid & 0xffff_ffff == pid_tgid % 0x1_0000_0000) by (bit_vector);
        }
        let tgid: u32 = (pid_tgid >> 32) as u32;
        let tid: u32 = (pid_tgid & 0xffff_ffff) as u32;
        let mut i: usize = 0;
        while i < FILTER_LEN
            invariant
                0 <= i <= FILTER_LEN,
                tgid == tgid_of(pid_tgid),
                forall|j: int| 0 <= j < i ==> self.filter_tgids@[j] != tgid,
            decreases FILTER_LEN - i,
        {
            if self.filter_tgids[i] == tgid {
                assert(self.filter_tgids@.contains(tgid));
                return None;
            }
            i = i + 1;
        }
        Some((tgid, tid))
    }
}

/// How many of the invocations by the tasks `calls` are dropped.
pub open spec fn excluded_count(cfg: ProbeConfig, calls: Seq<u64>) -> nat
    decreases calls.len(),
{
    if calls.len() == 0 {
        0
    } else {
        excluded_count(cfg, calls.drop_last()) + if cfg.spec_filter_tgids(calls.last()) is None {
            1nat
        } else {
            0nat
        }
    }
}

/// How many of the invocations by the tasks `calls` are reported.
pub open spec fn reported_count(cfg: ProbeConfig, calls: Seq<u64>) -> nat
    decreases calls.len(),
{
    if calls.len() == 0 {
        0
    } else {
        reported_count(cfg, calls.drop_last()) + if cfg.spec_filter_tgids(calls.last()) is Some {
            1nat
        } else {
            0nat
        }
    }
}

/// Self-exclusion: of `N` invocations, `M` of them by processes in the
/// exclusion list, `N - M` are reported.
pub proof fn lemma_self_exclusion(cfg: ProbeConfig, calls: Seq<u64>)
    ensures
        reported_count(cfg, calls) == calls.len() - excluded_count(cfg, calls),
    decreases calls.len(),
{
    if calls.len() > 0 {
        lemma_self_exclusion(cfg, calls.drop_last());
    }
}

/// How many entries of a vector of `vlen` entries are counted.
pub open spec fn spec_iovec_limit(vlen: int) -> int {
    if vlen < MAX_IOVEC {
        vlen
    } else {
        MAX_IOVEC as int
    }
}

pub fn iovec_limit(vlen: usize) -> (n: usize)
    ensures
        n == spec_iovec_limit(vlen as int),
{
    if vlen < MAX_IOVEC {
        vlen
    } else {
        MAX_IOVEC
    }
}

/// The sum of the lengths of the first `n` entries, as a number.
pub open spec fn iov_sum(iov: Seq<Result<IoVec, i64>>, n: int) -> int
    decreases n,
{
    if n <= 0 {
        0
    } else {
        iov_sum(iov, n - 1) + match iov[n - 1] {
            Ok(v) => v.iov_len as int,
            Err(_) => 0,
        }
    }
}

/// Entry `i` is the first of the first `limit` entries that faulted.
pub open spec fn is_first_fault(iov: Seq<Result<IoVec, i64>>, limit: int, i: int) -> bool {
    &&& 0 <= i < limit
    &&& iov[i] is Err
    &&& forall|j: int| 0 <= j < i ==> iov[j] is Ok
}

/// What `total_iovec_len` returns: the sum of the counted lengths modulo
/// 2^64, or the code of the first counted entry that faulted.
pub open spec fn spec_total_iovec_len(iov: Seq<Result<IoVec, i64>>) -> Result<u64, i64> {
    let limit = spec_iovec_limit(iov.len() as int);
    if forall|j: int| 0 <= j < limit ==> iov[j] is Ok {
        Ok((iov_sum(iov, limit) % 0x1_0000_0000_0000_0000) as u64)
    } else {
        Err(iov[choose|i: int| is_first_fault(iov, limit, i)]->Err_0)
    }
}

/// Only one entry is the first to fault.
pub proof fn lemma_first_fault_unique(iov: Seq<Result<IoVec, i64>>, limit: int, a: int, b: int)
    requires
        is_first_fault(iov, limit, a),
        is_first_fault(iov, limit, b),
    ensures
        a == b,
{
    if a < b {
        assert(iov[a] is Ok);
    } else if b < a {
        assert(iov[b] is Ok);
    }
}

/// The sum of the first `n` lengths rests on the first `n` entries alone.
proof fn lemma_iov_sum_of_equal_fronts(
    a: Seq<Result<IoVec, i64>>,
    b: Seq<Result<IoVec, i64>>,
    n: int,
)
    requires
        forall|i: int| 0 <= i < n ==> a[i] == b[i],
    ensures
        iov_sum(a, n) == iov_sum(b, n),
    decreases n,
{
    if n > 0 {
        lemma_iov_sum_of_equal_fronts(a, b, n - 1);
    }
}

/// Entries past the cap are ignored: two vectors of at least `MAX_IOVEC`
/// entries that agree in their first `MAX_IOVEC` have one total.
pub proof fn lemma_entries_past_the_cap_are_ignored(
    a: Seq<Result<IoVec, i64>>,
    b: Seq<Result<IoVec, i64>>,
)
    requires
        a.len() >= MAX_IOVEC,
        b.len() >= MAX_IOVEC,
        forall|i: int| 0 <= i < MAX_IOVEC ==> a[i] == b[i],
    ensures
        spec_total_iovec_len(a) == spec_total_iovec_len(b),
{
    let limit = MAX_IOVEC as int;
    lemma_iov_sum_of_equal_fronts(a, b, limit);
    if !(forall|j: int| 0 <= j < limit ==> a[j] is Ok) {
        let k = choose|j: int| 0 <= j < limit && !(a[j] is Ok);
        lemma_has_first_fault(a, limit, k);
        let i = choose|i: int| is_first_fault(a, limit, i);
        assert(is_first_fault(b, limit, i)) by {
            assert(a[i] == b[i]);
            assert forall|j: int| 0 <= j < i implies b[j] is Ok by {
                assert(a[j] == b[j]);
            }
        }
        let i2 = choose|i2: int| is_first_fault(b, limit, i2);
        lemma_first_fault_unique(b, limit, i, i2);
        assert(!(b[i] is Ok));
    } else {
        assert forall|j: int| 0 <= j < limit implies b[j] is Ok by {
            assert(a[j] == b[j]);
        }
    }
}

/// Where an entry before `limit` faulted, one of them is the first.
proof fn lemma_has_first_fault(iov: Seq<Result<IoVec, i64>>, limit: int, k: int)
    requires
        0 <= k < limit,
        iov[k] is Err,
    ensures
        exists|i: int| is_first_fault(iov, limit, i),
    decreases k,
{
    if forall|j: int| 0 <= j < k ==> iov[j] is Ok {
        assert(is_first_fault(iov, limit, k));
    } else {
        let j = choose|j: int| 0 <= j < k && !(iov[j] is Ok);
        lemma_has_first_fault(iov, limit, j);
    }
}

/// The bytes that a vectored call moves: the lengths of its first
/// `MAX_IOVEC` entries, added modulo 2^64.
pub fn total_iovec_len(iov: &[Result<IoVec, i64>]) -> (r: Result<u64, i64>)
    ensures
        r == spec_total_iovec_len(iov@),
{
    let limit: usize = iovec_limit(iov.len());
    let mut total: u64 = 0;
    let mut i: usize = 0;
    while i < limit
        invariant
            0 <= i <= limit,
            limit == spec_iovec_limit(iov@.len() as int),
            forall|j: int| 0 <= j < i ==> iov@[j] is Ok,
            total as int == iov_sum(iov@, i as int) % 0x1_0000_0000_0000_0000,
        decreases limit - i,
    {
        match iov[i] {
            Ok(v) => {
                proof {
                    vstd::arithmetic::div_mod::lemma_add_mod_noop(
                        iov_sum(iov@, i as int),
                        v.iov_len as int,
                        0x1_0000_0000_0000_0000,
                    );
                    vstd::arithmetic::div_mod::lemma_small_mod(
                        v.iov_len as nat,
                        0x1_0000_0000_0000_0000,
                    );
                    vstd::arithmetic::div_mod::lemma_small_mod(
                        total as nat,
                        0x1_0000_0000_0000_0000,
                    );
                }
                total = total.wrapping_add(v.iov_len);
            },
            Err(e) => {
                proof {
                    assert(is_first_fault(iov@, limit as int, i as int));
                    let c = choose|c: int| is_first_fault(iov@, limit as int, c);
                    lemma_first_fault_unique(iov@, limit as int, c, i as int);
                }
                return Err(e);
            },
        }
        i = i + 1;
    }
    Ok(total)
}

/// The fault writes, or makes a page writable.
pub open spec fn spec_is_write(flags: u32) -> bool {
    flags & (FAULT_FLAG_WRITE | FAULT_FLAG_MKWRITE) != 0
}

pub fn is_write(flags: u32) -> (w: bool)
    ensures
        w == spec_is_write(flags),
{
    flags & (FAULT_FLAG_WRITE | FAULT_FLAG_MKWRITE) != 0
}

/// The bytes of a compound page of the given order: `2^order` pages, taken
/// modulo 2^64 (the shift by `order` modulo 64).
pub open spec fn page_bytes(order: u8, page_size: u64) -> u64 {
    (((1u64 << ((order as u32) % 64)) as nat * page_size as nat) % 0x1_0000_0000_0000_0000) as u64
}

/// The kind and the size of a page fault, as a function of what was read.
pub open spec fn spec_bytes_from_page(cfg: ProbeConfig, reads: FaultReads) -> Result<
    (EventType, u64),
    i64,
> {
    if reads.flags is Err {
        Err(reads.flags->Err_0)
    } else if reads.page is Err {
        Err(reads.page->Err_0)
    } else if reads.page->Ok_0 == 0 {
        Ok((EventType::NullPage, 0))
    } else if reads.page_flags is Err {
        Err(reads.page_flags->Err_0)
    } else {
        let kind = if spec_is_write(reads.flags->Ok_0) {
            EventType::MmapWrite
        } else {
            EventType::MmapRead
        };
        if reads.page_flags->Ok_0 & cfg.page_head_mask == 0 {
            Ok((kind, page_bytes(0, cfg.page_size)))
        } else if reads.order is Err {
            Err(reads.order->Err_0)
        } else {
            Ok((kind, page_bytes(reads.order->Ok_0, cfg.page_size)))
        }
    }
}

/// Classifies a page fault and sizes it. A fault without a page is a
/// `NullPage` of no bytes; any other is a read or a write of one page, or of
/// the whole compound page where the faulted page heads one.
pub fn bytes_from_page(cfg: &ProbeConfig, reads: &FaultReads) -> (r: Result<(EventType, u64), i64>)
    ensures
        r == spec_bytes_from_page(*cfg, *reads),
{
    let fault_flags: u32 = match reads.flags {
        Ok(f) => f,
        Err(e) => {
            return Err(e);
        },
    };
    let event_type = if is_write(fault_flags) {
        EventType::MmapWrite
    } else {
        EventType::MmapRead
    };
    let page: u64 = match reads.page {
        Ok(p) => p,
        Err(e) => {
            return Err(e);
        },
    };
    if page == 0 {
        return Ok((EventType::NullPage, 0));
    }
    let pgflags: u64 = match reads.page_flags {
        Ok(f) => f,
        Err(e) => {
            return Err(e);
        },
    };
    let mut order: u8 = 0;
    if pgflags & cfg.page_head_mask != 0 {
        match reads.order {
            Ok(o) => {
                order = o;
            },
            Err(e) => {
                return Err(e);
            },
        }
    }
    let num_pages: u64 = 1u64.wrapping_shl(order as u32);
    Ok((event_type, num_pages.wrapping_mul(cfg.page_size)))
}

/// The path field after a resolved path was copied into it: the whole path
/// at its front where the field holds it, and else the last `PATH_LEN` bytes
/// of the path, so that a path loses bytes at its front only.
pub open spec fn path_field(before: Seq<u8>, heap: Seq<u8>, start: int, len: int) -> Seq<u8> {
    if len <= PATH_LEN {
        heap.subrange(start, start + len) + before.subrange(len, PATH_LEN as int)
    } else {
        heap.subrange(start + len - PATH_LEN, start + len)
    }
}

/// What `populate_from_file` makes of an event, given how the resolution of
/// the file's path ended: the file's identity is filled in, and after a
/// resolution without fault the path as well.
pub open spec fn populated(
    before: FileAccessEvent,
    after: FileAccessEvent,
    file: FileInfo,
    o: StepOutcome,
) -> bool {
    &&& after.dev == file.dev
    &&& after.inode == file.inode
    &&& after.s_magic == file.s_magic
    &&& after.i_mode == file.i_mode
    &&& after.bytes == before.bytes
    &&& after.tid == before.tid
    &&& after.tgid == before.tgid
    &&& after.event_type == before.event_type
    &&& after.comm@ == before.comm@
    &&& after.path@ == if o.result is Ok {
        path_field(
            before.path@,
            o.heap,
            o.ctx.buf_remainder as int,
            MAX_BUF_LEN - o.ctx.buf_remainder,
        )
    } else {
        before.path@
    }
}

/// How the resolution of a file's path for a task ends.
pub open spec fn resolution(tree: MountTree, heap: Seq<u8>, file: FileInfo, root: PathRef) -> StepOutcome {
    spec_resolve(tree, ResolveContext::spec_new(file.path, root), heap, MAX_STEPS as nat)
}

/// Filling an event from the file that it is about.
pub trait EventExt: Sized {
    /// The event, its arrays by their contents.
    spec fn event(&self) -> FileAccessEvent;

    /// Sets the file's identity and resolves its path into the event.
    fn populate_from_file(
        &mut self,
        file: &FileInfo,
        root: PathRef,
        tree: &MountTree,
        heap: &mut BufferHeap,
    ) -> (r: Result<(), i64>)
        ensures
            populated(
                old(self).event(),
                final(self).event(),
                *file,
                resolution(*tree, old(heap).buf@, *file, root),
            ),
            final(heap).buf@ == resolution(*tree, old(heap).buf@, *file, root).heap,
            match r {
                Ok(()) => resolution(*tree, old(heap).buf@, *file, root).result is Ok,
                Err(e) => resolution(*tree, old(heap).buf@, *file, root).result == Err::<
                    bool,
                    i64,
                >(e),
            },
    ;
}

impl FileAccessEvent {
    /// Copies a resolved path into the path field: all of it, or its last
    /// `PATH_LEN` bytes where it is longer.
    pub fn set_path(&mut self, heap: &BufferHeap, start: usize, len: usize)
        requires
            start + len <= HEAP_LEN,
        ensures
            final(self).path@ == path_field(old(self).path@, heap.buf@, start as int, len as int),
            final(self).inode == old(self).inode,
            final(self).bytes == old(self).bytes,
            final(self).tid == old(self).tid,
            final(self).tgid == old(self).tgid,
            final(self).dev == old(self).dev,
            final(self).event_type == old(self).event_type,
            final(self).comm == old(self).comm,
            final(self).s_magic == old(self).s_magic,
            final(self).i_mode == old(self).i_mode,
    {
        let skip: usize = if len > PATH_LEN {
            len - PATH_LEN
        } else {
            0
        };
        let n: usize = len - skip;
        let from: usize = start + skip;
        let mut i: usize = 0;
        while i < n
            invariant
                0 <= i <= n,
                n <= PATH_LEN,
                from + n <= HEAP_LEN,
                forall|j: int| 0 <= j < i ==> self.path@[j] == heap.buf@[from + j],
                forall|j: int| i <= j < PATH_LEN ==> self.path@[j] == old(self).path@[j],
                self.inode == old(self).inode,
                self.bytes == old(self).bytes,
                self.tid == old(self).tid,
                self.tgid == old(self).tgid,
                self.dev == old(self).dev,
                self.event_type == old(self).event_type,
                self.comm == old(self).comm,
                self.s_magic == old(self).s_magic,
                self.i_mode == old(self).i_mode,
            decreases n - i,
        {
            self.path[i] = heap.buf[from + i];
            i = i + 1;
        }
        assert(self.path@ =~= path_field(old(self).path@, heap.buf@, start as int, len as int));
    }
}

/// The event for an access of `bytes` bytes of kind `kind` to `file`, by the
/// task with the identifiers `ids` (process first) and the name `comm`. Its
/// path is still empty.
pub fn new_report(
    kind: EventType,
    ids: (u32, u32),
    comm: [u8; 16],
    bytes: u64,
    file: &FileInfo,
) -> (e: FileAccessEvent)
    ensures
        e.event_type == kind,
        e.tgid == ids.0,
        e.tid == ids.1,
        e.comm == comm,
        e.bytes == bytes,
        e.inode == file.inode,
        e.dev == file.dev,
        e.s_magic == file.s_magic,
        e.i_mode == file.i_mode,
        e.path@ == Seq::new(PATH_LEN as nat, |i: int| 0u8),
{
    let mut event = FileAccessEvent::zeroed();
    event.event_type = kind;
    event.tid = ids.1;
    event.tgid = ids.0;
    event.comm = comm;
    event.bytes = bytes;
    event.dev = file.dev;
    event.inode = file.inode;
    event.s_magic = file.s_magic;
    event.i_mode = file.i_mode;
    event
}

impl EventExt for FileAccessEvent {
    open spec fn event(&self) -> FileAccessEvent {
        *self
    }

    fn populate_from_file(
        &mut self,
        file: &FileInfo,
        root: PathRef,
        tree: &MountTree,
        heap: &mut BufferHeap,
    ) -> (r: Result<(), i64>) {
        self.dev = file.dev;
        self.inode = file.inode;
        self.s_magic = file.s_magic;
        self.i_mode = file.i_mode;
        match d_path_local(tree, heap, file.path, root) {
            Ok((start, len)) => {
                self.set_path(heap, start, len);
                Ok(())
            },
            Err(e) => Err(e),
        }
    }
}

/// `ev` is the event that a handler publishes for an access of `bytes`
/// bytes of kind `kind` by `task` to `file`, the path resolved as `o` says.
pub open spec fn is_report(
    ev: FileAccessEvent,
    kind: EventType,
    task: Task,
    bytes: u64,
    file: FileInfo,
    o: StepOutcome,
) -> bool {
    &&& ev.event_type == kind
    &&& ev.tgid == tgid_of(task.pid_tgid)
    &&& ev.tid == tid_of(task.pid_tgid)
    &&& task.comm is Ok
    &&& ev.comm@ == task.comm->Ok_0@
    &&& ev.bytes == bytes
    &&& ev.inode == file.inode
    &&& ev.dev == file.dev
    &&& ev.s_magic == file.s_magic
    &&& ev.i_mode == file.i_mode
    &&& ev.path@ == path_field(
        Seq::new(PATH_LEN as nat, |i: int| 0u8),
        o.heap,
        o.ctx.buf_remainder as int,
        MAX_BUF_LEN - o.ctx.buf_remainder,
    )
}

/// What a handler returns and leaves in the scratch buffer once it knows the
/// size of the access: the event to publish, or the first fault among the
/// task's name, the file, and the walk up the file's path.
pub open spec fn reports(
    kind: EventType,
    task: Task,
    bytes: u64,
    file: Result<FileInfo, i64>,
    tree: MountTree,
    heap: Seq<u8>,
    r: Result<Option<FileAccessEvent>, i64>,
    heap_after: Seq<u8>,
) -> bool {
    if task.comm is Err {
        r == Err::<Option<FileAccessEvent>, i64>(task.comm->Err_0) && heap_after == heap
    } else if file is Err {
        r == Err::<Option<FileAccessEvent>, i64>(file->Err_0) && heap_after == heap
    } else {
        let o = resolution(tree, heap, file->Ok_0, task.root);
        &&& heap_after == o.heap
        &&& match o.result {
            Err(e) => r == Err::<Option<FileAccessEvent>, i64>(e),
            Ok(_) => r matches Ok(Some(ev)) && is_report(ev, kind, task, bytes, file->Ok_0, o),
        }
    }
}

/// What a handler of a read or write call returns: nothing for a task that
/// is excluded, else the fault met in counting the bytes, else its report.
pub open spec fn handles(
    cfg: ProbeConfig,
    kind: EventType,
    task: Task,
    bytes: Result<u64, i64>,
    file: Result<FileInfo, i64>,
    tree: MountTree,
    heap: Seq<u8>,
    r: Result<Option<FileAccessEvent>, i64>,
    heap_after: Seq<u8>,
) -> bool {
    if cfg.excludes(tgid_of(task.pid_tgid)) {
        r == Ok::<Option<FileAccessEvent>, i64>(None) && heap_after == heap
    } else if bytes is Err {
        r == Err::<Option<FileAccessEvent>, i64>(bytes->Err_0) && heap_after == heap
    } else {
        reports(kind, task, bytes->Ok_0, file, tree, heap, r, heap_after)
    }
}

/// What the page fault handler returns: as `handles`, with kind and size
/// taken from the fault.
pub open spec fn handles_fault(
    cfg: ProbeConfig,
    task: Task,
    fault: FaultReads,
    file: Result<FileInfo, i64>,
    tree: MountTree,
    heap: Seq<u8>,
    r: Result<Option<FileAccessEvent>, i64>,
    heap_after: Seq<u8>,
) -> bool {
    if cfg.excludes(tgid_of(task.pid_tgid)) {
        r == Ok::<Option<FileAccessEvent>, i64>(None) && heap_after == heap
    } else {
        match spec_bytes_from_page(cfg, fault) {
            Err(e) => r == Err::<Option<FileAccessEvent>, i64>(e) && heap_after == heap,
            Ok((kind, bytes)) => reports(kind, task, bytes, file, tree, heap, r, heap_after),
        }
    }
}

/// Builds the event for an access by a task that is reported.
fn report(
    kind: EventType,
    ids: (u32, u32),
    task: &Task,
    bytes: u64,
    file: &Result<FileInfo, i64>,
    tree: &MountTree,
    heap: &mut BufferHeap,
) -> (r: Result<Option<FileAccessEvent>, i64>)
    requires
        ids == (tgid_of(task.pid_tgid), tid_of(task.pid_tgid)),
    ensures
        reports(kind, *task, bytes, *file, *tree, old(heap).buf@, r, final(heap).buf@),
{
    let comm: [u8; 16] = match task.comm {
        Ok(c) => c,
        Err(e) => {
            return Err(e);
        },
    };
    let info: FileInfo = match file {
        Ok(f) => *f,
        Err(e) => {
            return Err(*e);
        },
    };
    let mut event = new_report(kind, ids, comm, bytes, &info);
    match event.populate_from_file(&info, task.root, tree, heap) {
        Ok(()) => Ok(Some(event)),
        Err(e) => Err(e),
    }
}

/// The handler at the entry of a read of `count` bytes.
pub fn try_handle_vfs_read(
    cfg: &ProbeConfig,
    task: &Task,
    file: &FileInfo,
    count: u64,
    tree: &MountTree,
    heap: &mut BufferHeap,
) -> (r: Result<Option<FileAccessEvent>, i64>)
    ensures
        handles(
            *cfg,
            EventType::VfsRead,
            *task,
            Ok(count),
            Ok(*file),
            *tree,
            old(heap).buf@,
            r,
            final(heap).buf@,
        ),
{
    match cfg.filter_tgids(task.pid_tgid) {
        None => Ok(None),
        Some(ids) => report(EventType::VfsRead, ids, task, count, &Ok(*file), tree, heap),
    }
}

/// The handler at the entry of a write of `count` bytes.
pub fn try_handle_vfs_write(
    cfg: &ProbeConfig,
    task: &Task,
    file: &FileInfo,
    count: u64,
    tree: &MountTree,
    heap: &mut BufferHeap,
) -> (r: Result<Option<FileAccessEvent>, i64>)
    ensures
        handles(
            *cfg,
            EventType::VfsWrite,
            *task,
            Ok(count),
            Ok(*file),
            *tree,
            old(heap).buf@,
            r,
            final(heap).buf@,
        ),
{
    match cfg.filter_tgids(task.pid_tgid) {
        None => Ok(None),
        Some(ids) => report(EventType::VfsWrite, ids, task, count, &Ok(*file), tree, heap),
    }
}

/// The handler at the entry of a vectored read.
pub fn try_handle_vfs_readv(
    cfg: &ProbeConfig,
    task: &Task,
    file: &FileInfo,
    iov: &[Result<IoVec, i64>],
    tree: &MountTree,
    heap: &mut BufferHeap,
) -> (r: Result<Option<FileAccessEvent>, i64>)
    ensures
        handles(
            *cfg,
            EventType::VfsReadv,
            *task,
            spec_total_iovec_len(iov@),
            Ok(*file),
            *tree,
            old(heap).buf@,
            r,
            final(heap).buf@,
        ),
{
    match cfg.filter_tgids(task.pid_tgid) {
        None => Ok(None),
        Some(ids) => match total_iovec_len(iov) {
            Ok(bytes) => report(EventType::VfsReadv, ids, task, bytes, &Ok(*file), tree, heap),
            Err(e) => Err(e),
        },
    }
}

/// The handler at the entry of a vectored write.
pub fn try_handle_vfs_writev(
    cfg: &ProbeConfig,
    task: &Task,
    file: &FileInfo,
    iov: &[Result<IoVec, i64>],
    tree: &MountTree,
    heap: &mut BufferHeap,
) -> (r: Result<Option<FileAccessEvent>, i64>)
    ensures
        handles(
            *cfg,
            EventType::VfsWritev,
            *task,
            spec_total_iovec_len(iov@),
            Ok(*file),
            *tree,
            old(heap).buf@,
            r,
            final(heap).buf@,
        ),
{
    match cfg.filter_tgids(task.pid_tgid) {
        None => Ok(None),
        Some(ids) => match total_iovec_len(iov) {
            Ok(bytes) => report(EventType::VfsWritev, ids, task, bytes, &Ok(*file), tree, heap),
            Err(e) => Err(e),
        },
    }
}

/// The handler at the exit of the fault path of a memory-mapped file.
pub fn try_handle_filemap_fault(
    cfg: &ProbeConfig,
    task: &Task,
    fault: &FaultReads,
    file: &Result<FileInfo, i64>,
    tree: &MountTree,
    heap: &mut BufferHeap,
) -> (r: Result<Option<FileAccessEvent>, i64>)
    ensures
        handles_fault(*cfg, *task, *fault, *file, *tree, old(heap).buf@, r, final(heap).buf@),
{
    match cfg.filter_tgids(task.pid_tgid) {
        None => Ok(None),
        Some(ids) => match bytes_from_page(cfg, fault) {
            Ok((kind, bytes)) => report(kind, ids, task, bytes, file, tree, heap),
            Err(e) => Err(e),
        },
    }
}

/// What a probe hands back to the kernel, and what it publishes.
pub struct Handled {
    /// 0, or the code of the fault that ended the handler.
    pub status: i64,
    /// The event to publish, if any.
    pub event: Option<FileAccessEvent>,
}

/// The status and the event of a handler's result.
pub open spec fn spec_handled(r: Result<Option<FileAccessEvent>, i64>) -> Handled {
    match r {
        Ok(event) => Handled { status: 0, event },
        Err(code) => Handled { status: code, event: None },
    }
}

/// The probe at the entry of a write: its status is 0 unless a read
/// faulted, and nothing is published after a fault.
pub fn handle_vfs_write(
    cfg: &ProbeConfig,
    task: &Task,
    file: &FileInfo,
    count: u64,
    tree: &MountTree,
    heap: &mut BufferHeap,
) -> (h: Handled)
    ensures
        exists|r: Result<Option<FileAccessEvent>, i64>|
            h == spec_handled(r) && #[trigger] handles(
                *cfg,
                EventType::VfsWrite,
                *task,
                Ok(count),
                Ok(*file),
                *tree,
                old(heap).buf@,
                r,
                final(heap).buf@,
            ),
{
    match try_handle_vfs_write(cfg, task, file, count, tree, heap) {
        Ok(event) => Handled { status: 0, event },
        Err(ret) => Handled { status: ret, event: None },
    }
}

/// The probe at the entry of a vectored write.
pub fn handle_vfs_writev(
    cfg: &ProbeConfig,
    task: &Task,
    file: &FileInfo,
    iov: &[Result<IoVec, i64>],
    tree: &MountTree,
    heap: &mut BufferHeap,
) -> (h: Handled)
    ensures
        exists|r: Result<Option<FileAccessEvent>, i64>|
            h == spec_handled(r) && #[trigger] handles(
                *cfg,
                EventType::VfsWritev,
                *task,
                spec_total_iovec_len(iov@),
                Ok(*file),
                *tree,
                old(heap).buf@,
                r,
                final(heap).buf@,
            ),
{
    match try_handle_vfs_writev(cfg, task, file, iov, tree, heap) {
        Ok(event) => Handled { status: 0, event },
        Err(ret) => Handled { status: ret, event: None },
    }
}

} // verus!

//! The path resolver: walks a directory entry's chain of parents and mounts
//! upward and builds the absolute path backward from the tail of a scratch
//! buffer, in at most `MAX_STEPS` steps.
//!
//! Kernel objects are named by their addresses (`u64`). A mount and the
//! `vfsmount` embedded in it are one object here.

use crate::ext::{Qstr, QstrExt};
use crate::mount::MountTree;
use vstd::prelude::*;

verus! {

/// Capacity of the path area of the scratch buffer.
pub const MAX_BUF_LEN: usize = 4096;

/// Bytes that follow the path area, so that a name written at its very end
/// stays inside the buffer.
pub const BUF_SLACK: usize = 256;

/// Size of the scratch buffer: `MAX_BUF_LEN + BUF_SLACK`.
pub const HEAP_LEN: usize = 4352;

/// Mask that bounds the length of one name.
pub const MAX_NAME_LEN: usize = 0xff;

/// Ceiling on the steps of one resolution. It bounds the work done in the
/// kernel and is part of the resolver's correctness, not a tuning knob.
pub const MAX_STEPS: usize = 32;

/// Flag for a path whose leading components were not resolved.
pub const UNRESOLVED_PATH_COMPONENTS: i32 = 0x02;

/// The separator between components.
pub const SEPARATOR: u8 = 0x2f;

/// The scratch buffer of one processor core. A resolution owns it from its
/// first step to its last; nothing else may use it in between.
pub struct BufferHeap {
    pub buf: [u8; 4352],
}

impl BufferHeap {
    pub fn new() -> (h: BufferHeap)
        ensures
            h.buf@ == Seq::new(HEAP_LEN as nat, |i: int| 0u8),
    {
        let h = BufferHeap { buf: [0u8; 4352] };
        assert(h.buf@ =~= Seq::new(HEAP_LEN as nat, |i: int| 0u8));
        h
    }
}

/// A directory entry on a mount.
#[derive(Clone, Copy, Debug, PartialEq, Eq, Structural)]
pub struct PathRef {
    pub dentry: u64,
    pub mnt: u64,
}

/// What one step reads from kernel memory, each read either its value or the
/// code of the fault that it met. A step looks only at the reads that it
/// needs, in the order in which the fields stand here.
pub struct StepReads<'a> {
    /// The root entry of the current mount.
    pub mnt_root: Result<u64, i64>,
    /// The parent of the current entry.
    pub d_parent: Result<u64, i64>,
    /// The parent of the current mount.
    pub mnt_parent: Result<u64, i64>,
    /// The entry on which the current mount is mounted.
    pub mnt_mountpoint: Result<u64, i64>,
    /// The name of the current entry.
    pub d_name: Result<&'a Qstr, i64>,
}

impl StepReads<'_> {
    /// Reads that were not made, for a step that looks at none.
    pub fn unread() -> (reads: StepReads<'static>)
        ensures
            reads.mnt_root is Err,
            reads.d_parent is Err,
            reads.mnt_parent is Err,
            reads.mnt_mountpoint is Err,
            reads.d_name is Err,
    {
        StepReads {
            mnt_root: Err(0),
            d_parent: Err(0),
            mnt_parent: Err(0),
            mnt_mountpoint: Err(0),
            d_name: Err(0),
        }
    }
}

/// The state of one resolution.
#[derive(Clone, Copy, Debug, PartialEq, Eq, Structural)]
pub struct ResolveContext {
    pub root_dentry: u64,
    pub root_mnt: u64,
    pub curr_dentry: u64,
    pub curr_mnt: u64,
    /// Where the path begins in the buffer; it ends at `MAX_BUF_LEN`.
    pub buf_remainder: usize,
    pub resolved: bool,
}

/// The length of a name as the resolver takes it.
pub open spec fn masked_len(name: Seq<u8>) -> int {
    (name.len() % 256) as int
}

/// How many bytes of a name are written when `rem` bytes are free: all of
/// them, or the last `rem` where the name is longer.
pub open spec fn kept_len(name: Seq<u8>, rem: int) -> int {
    if masked_len(name) > rem {
        rem
    } else {
        masked_len(name)
    }
}

/// A separator goes before the name unless the name is cut.
pub open spec fn writes_separator(name: Seq<u8>, rem: int) -> bool {
    masked_len(name) <= rem
}

/// The bytes that prepending a name writes.
pub open spec fn written(name: Seq<u8>, rem: int) -> Seq<u8> {
    let n = masked_len(name);
    let tail = name.subrange(n - kept_len(name, rem), n);
    if writes_separator(name, rem) {
        seq![SEPARATOR] + tail
    } else {
        tail
    }
}

/// Where the path begins after a name was prepended. The count of free bytes
/// is taken modulo `MAX_BUF_LEN`: a name that fills the free bytes exactly
/// leaves no room for its separator, and the count wraps to `MAX_BUF_LEN - 1`.
pub open spec fn next_remainder(name: Seq<u8>, rem: int) -> int {
    let n = masked_len(name);
    if n > rem {
        0
    } else if n == rem {
        MAX_BUF_LEN - 1
    } else {
        rem - n - 1
    }
}

/// The buffer after a name was prepended.
pub open spec fn prepended(heap: Seq<u8>, name: Seq<u8>, rem: int) -> Seq<u8> {
    let start = next_remainder(name, rem);
    let data = written(name, rem);
    heap.subrange(0, start) + data + heap.subrange(start + data.len(), heap.len() as int)
}

/// The ways a step can go.
pub enum StepKind {
    /// The walk stands on the task's root, or was marked complete before.
    Resolved,
    /// A read that the step needs faulted, with this code.
    Fault(i64),
    /// The walk stands on the root of the topmost mount.
    Stop,
    /// The walk crosses from the root of a mount to its mountpoint.
    Cross,
    /// The walk prepends a name and moves to the parent entry.
    Name,
}

/// What a step comes to.
pub struct StepOutcome {
    /// `Ok(true)` to go on, `Ok(false)` at the global root, or the fault.
    pub result: Result<bool, i64>,
    pub ctx: ResolveContext,
    pub heap: Seq<u8>,
}

impl ResolveContext {
    /// The target is the task's root, or the resolution was marked complete.
    pub open spec fn spec_is_resolved(self) -> bool {
        self.resolved || (self.root_mnt == self.curr_mnt && self.root_dentry == self.curr_dentry)
    }

    /// The path begins inside the path area.
    pub open spec fn wf(self) -> bool {
        self.buf_remainder <= MAX_BUF_LEN
    }

    /// Which way a step goes.
    pub open spec fn spec_kind(self, reads: StepReads<'_>) -> StepKind {
        if self.spec_is_resolved() {
            StepKind::Resolved
        } else if reads.mnt_root is Err {
            StepKind::Fault(reads.mnt_root->Err_0)
        } else if self.curr_dentry != reads.mnt_root->Ok_0 && reads.d_parent is Err {
            StepKind::Fault(reads.d_parent->Err_0)
        } else if self.curr_dentry == reads.mnt_root->Ok_0 || self.curr_dentry
            == reads.d_parent->Ok_0 {
            if reads.mnt_parent is Err {
                StepKind::Fault(reads.mnt_parent->Err_0)
            } else if self.curr_mnt == reads.mnt_parent->Ok_0 {
                StepKind::Stop
            } else if reads.mnt_mountpoint is Err {
                StepKind::Fault(reads.mnt_mountpoint->Err_0)
            } else {
                StepKind::Cross
            }
        } else if reads.d_name is Err {
            StepKind::Fault(reads.d_name->Err_0)
        } else {
            StepKind::Name
        }
    }

    /// One step of the walk, as a function of the state and of what was read.
    pub open spec fn spec_step(self, heap: Seq<u8>, reads: StepReads<'_>) -> StepOutcome {
        match self.spec_kind(reads) {
            StepKind::Resolved => StepOutcome {
                result: Ok(true),
                ctx: ResolveContext { resolved: true, ..self },
                heap,
            },
            StepKind::Fault(e) => StepOutcome { result: Err(e), ctx: self, heap },
            StepKind::Stop => StepOutcome {
                result: Ok(false),
                ctx: ResolveContext { resolved: true, ..self },
                heap,
            },
            StepKind::Cross => StepOutcome {
                result: Ok(true),
                ctx: ResolveContext {
                    curr_dentry: reads.mnt_mountpoint->Ok_0,
                    curr_mnt: reads.mnt_parent->Ok_0,
                    ..self
                },
                heap,
            },
            StepKind::Name => {
                let name = reads.d_name->Ok_0.text();
                StepOutcome {
                    result: Ok(true),
                    ctx: ResolveContext {
                        curr_dentry: reads.d_parent->Ok_0,
                        buf_remainder: next_remainder(name, self.buf_remainder as int) as usize,
                        ..self
                    },
                    heap: prepended(heap, name, self.buf_remainder as int),
                }
            },
        }
    }

    /// The state in which a resolution begins.
    pub open spec fn spec_new(target: PathRef, root: PathRef) -> ResolveContext {
        ResolveContext {
            root_dentry: root.dentry,
            root_mnt: root.mnt,
            curr_dentry: target.dentry,
            curr_mnt: target.mnt,
            buf_remainder: MAX_BUF_LEN,
            resolved: false,
        }
    }

    /// A resolution of `target` for a task whose root is `root`, with the
    /// whole path area free.
    pub fn new(target: PathRef, root: PathRef) -> (ctx: ResolveContext)
        ensures
            ctx == Self::spec_new(target, root),
            ctx.wf(),
    {
        ResolveContext {
            root_dentry: root.dentry,
            root_mnt: root.mnt,
            curr_dentry: target.dentry,
            curr_mnt: target.mnt,
            buf_remainder: MAX_BUF_LEN,
            resolved: false,
        }
    }

    pub fn is_resolved(&self) -> (r: bool)
        ensures
            r == self.spec_is_resolved(),
    {
        self.resolved || (self.root_mnt == self.curr_mnt && self.root_dentry == self.curr_dentry)
    }

    /// Writes `name` before the path, with a separator before it. Where the
    /// name is longer than the free bytes, only its end is written, right
    /// against the start of the buffer and without a separator.
    pub fn prepend_name(&mut self, heap: &mut BufferHeap, name: &Qstr)
        requires
            old(self).wf(),
        ensures
            final(self).wf(),
            final(self).buf_remainder as int == next_remainder(
                name.text(),
                old(self).buf_remainder as int,
            ),
            *final(self) == (ResolveContext {
                buf_remainder: final(self).buf_remainder,
                ..*old(self)
            }),
            final(heap).buf@ == prepended(
                old(heap).buf@,
                name.text(),
                old(self).buf_remainder as int,
            ),
    {
        let full: usize = name.len() as usize;
        let mut name_len: usize = full & MAX_NAME_LEN;
        let mut skip: usize = 0;
        let mut write_slash = true;
        let rem: usize = self.buf_remainder;
        proof {
            assert(full & 0xff == full % 256) by (bit_vector);
            assert(full as int == name.len);
            assert(name_len as int == masked_len(name.text()));
        }
        if name_len > rem {
            skip = name_len - rem;
            name_len = rem;
            write_slash = false;
        }
        let space_needed: usize = if write_slash {
            name_len + 1
        } else {
            name_len
        };
        let wrapped: usize = rem.wrapping_sub(space_needed);
        let start: usize = wrapped & (MAX_BUF_LEN - 1);
        proof {
            assert(wrapped & 4095 == wrapped % 4096) by (bit_vector);
            assert(start as int == next_remainder(name.text(), rem as int));
        }
        self.buf_remainder = start;
        let mut at: usize = start;
        if write_slash {
            heap.buf[at] = SEPARATOR;
            at = at + 1;
        }
        let mut i: usize = 0;
        while i < name_len
            invariant
                0 <= i <= name_len,
                start <= at,
                at + name_len <= HEAP_LEN,
                skip + name_len <= 255,
                skip + name_len == masked_len(name.text()),
                heap.buf@.len() == HEAP_LEN,
                write_slash ==> at == start + 1 && heap.buf@[start as int] == SEPARATOR,
                !write_slash ==> at == start,
                forall|j: int| 0 <= j < start ==> heap.buf@[j] == old(heap).buf@[j],
                forall|j: int|
                    at <= j < at + i ==> heap.buf@[j] == name.text()[skip + j - at],
                forall|j: int| at + i <= j < HEAP_LEN ==> heap.buf@[j] == old(heap).buf@[j],
            decreases name_len - i,
        {
            heap.buf[at + i] = name.name[skip + i];
            i = i + 1;
        }
        proof {
            let n = masked_len(name.text());
            assert(name_len as int == kept_len(name.text(), rem as int));
            assert(skip as int == n - name_len);
            assert(write_slash == writes_separator(name.text(), rem as int));
            let data = written(name.text(), rem as int);
            assert(data.len() == at - start + name_len);
            let expect = prepended(old(heap).buf@, name.text(), rem as int);
            assert(expect.len() == HEAP_LEN);
            assert forall|j: int| 0 <= j < HEAP_LEN implies heap.buf@[j] == expect[j] by {
                if j < start {
                } else if j < start + data.len() {
                    assert(expect[j] == data[j - start]);
                } else {
                }
            }
        }
        assert(heap.buf@ =~= prepended(old(heap).buf@, name.text(), rem as int));
    }

    /// One step of the walk. At the task's root, or once marked complete,
    /// nothing moves. At the root of a mount the walk crosses to the parent
    /// mount and stands on the mountpoint; at the root of the topmost mount it
    /// stops. Anywhere else the name of the current entry is prepended and the
    /// walk moves to the parent entry. A fault in a read that the step needs
    /// ends it with nothing changed.
    pub fn step(&mut self, heap: &mut BufferHeap, reads: &StepReads<'_>) -> (r: Result<bool, i64>)
        requires
            old(self).wf(),
        ensures
            final(self).wf(),
            r == old(self).spec_step(old(heap).buf@, *reads).result,
            *final(self) == old(self).spec_step(old(heap).buf@, *reads).ctx,
            final(heap).buf@ == old(self).spec_step(old(heap).buf@, *reads).heap,
    {
        if self.is_resolved() {
            self.resolved = true;
            return Ok(true);
        }
        let curr_mnt_root: u64 = match reads.mnt_root {
            Ok(d) => d,
            Err(e) => {
                return Err(e);
            },
        };
        let mut at_root: bool = self.curr_dentry == curr_mnt_root;
        if !at_root {
            match reads.d_parent {
                Ok(p) => {
                    at_root = self.curr_dentry == p;
                },
                Err(e) => {
                    return Err(e);
                },
            }
        }
        if at_root {
            let parent: u64 = match reads.mnt_parent {
                Ok(m) => m,
                Err(e) => {
                    return Err(e);
                },
            };
            if self.curr_mnt != parent {
                match reads.mnt_mountpoint {
                    Ok(d) => {
                        self.curr_dentry = d;
                        self.curr_mnt = parent;
                        return Ok(true);
                    },
                    Err(e) => {
                        return Err(e);
                    },
                }
            }
            self.resolved = true;
            return Ok(false);
        }
        match (reads.d_name, reads.d_parent) {
            (Ok(name), Ok(parent)) => {
                self.prepend_name(heap, name);
                self.curr_dentry = parent;
                Ok(true)
            },
            (Err(e), _) => Err(e),
            (_, Err(e)) => Err(e),
        }
    }
}

/// The walk over a snapshot: steps are taken until one stops or faults, and
/// `steps` of them at most.
pub open spec fn spec_resolve(
    tree: MountTree,
    ctx: ResolveContext,
    heap: Seq<u8>,
    steps: nat,
) -> StepOutcome
    decreases steps,
{
    if steps == 0 {
        StepOutcome { result: Ok(true), ctx, heap }
    } else {
        let o = ctx.spec_step(heap, tree.spec_reads(ctx.curr_dentry, ctx.curr_mnt));
        if o.result == Ok::<bool, i64>(true) {
            spec_resolve(tree, o.ctx, o.heap, (steps - 1) as nat)
        } else {
            o
        }
    }
}

/// Every step leaves the start of the path inside the path area.
pub proof fn lemma_step_keeps_wf(ctx: ResolveContext, heap: Seq<u8>, reads: StepReads<'_>)
    requires
        ctx.wf(),
    ensures
        ctx.spec_step(heap, reads).ctx.wf(),
{
}

/// The walk leaves the start of the path inside the path area, however many
/// steps it takes: the path is never longer than `MAX_BUF_LEN`.
pub proof fn lemma_resolve_keeps_wf(tree: MountTree, ctx: ResolveContext, heap: Seq<u8>, steps: nat)
    requires
        ctx.wf(),
    ensures
        spec_resolve(tree, ctx, heap, steps).ctx.wf(),
    decreases steps,
{
    if steps > 0 {
        let o = ctx.spec_step(heap, tree.spec_reads(ctx.curr_dentry, ctx.curr_mnt));
        lemma_step_keeps_wf(ctx, heap, tree.spec_reads(ctx.curr_dentry, ctx.curr_mnt));
        if o.result == Ok::<bool, i64>(true) {
            lemma_resolve_keeps_wf(tree, o.ctx, o.heap, (steps - 1) as nat);
        }
    }
}

impl ResolveContext {
    /// Walks upward over `tree` for `MAX_STEPS` steps at most. A walk that
    /// runs out of steps keeps what it has: the end of the path.
    pub fn resolve(&mut self, heap: &mut BufferHeap, tree: &MountTree) -> (r: Result<(), i64>)
        requires
            old(self).wf(),
        ensures
            final(self).wf(),
            *final(self) == spec_resolve(*tree, *old(self), old(heap).buf@, MAX_STEPS as nat).ctx,
            final(heap).buf@ == spec_resolve(
                *tree,
                *old(self),
                old(heap).buf@,
                MAX_STEPS as nat,
            ).heap,
            match r {
                Ok(()) => spec_resolve(
                    *tree,
                    *old(self),
                    old(heap).buf@,
                    MAX_STEPS as nat,
                ).result is Ok,
                Err(e) => spec_resolve(*tree, *old(self), old(heap).buf@, MAX_STEPS as nat).result
                    == Err::<bool, i64>(e),
            },
    {
        let mut walk = Walk { ctx: *self, left: MAX_STEPS, stopped: false };
        loop
            invariant
                walk.wf(),
                !walk.stopped ==> spec_resolve(
                    *tree,
                    *old(self),
                    old(heap).buf@,
                    MAX_STEPS as nat,
                ) == spec_resolve(*tree, walk.ctx, heap.buf@, walk.left as nat),
                walk.stopped ==> spec_resolve(
                    *tree,
                    *old(self),
                    old(heap).buf@,
                    MAX_STEPS as nat,
                ) == (StepOutcome { result: Ok(false), ctx: walk.ctx, heap: heap.buf@ }),
            decreases walk.left + if walk.stopped { 0int } else { 1int },
        {
            match walk.position() {
                None => {
                    *self = walk.ctx;
                    return Ok(());
                },
                Some(at) => {
                    let reads = tree.read_step(at.dentry, at.mnt);
                    match walk.step(heap, &reads) {
                        Ok(()) => {},
                        Err(e) => {
                            *self = walk.ctx;
                            return Err(e);
                        },
                    }
                },
            }
        }
    }
}

/// Resolves the path of `path` for a task whose root is `root`, over a
/// snapshot. The path is left in `heap.buf[start..start + len]`, where
/// `(start, len)` is the result, and ends at `MAX_BUF_LEN`.
pub fn d_path_local(tree: &MountTree, heap: &mut BufferHeap, path: PathRef, root: PathRef) -> (r:
    Result<(usize, usize), i64>)
    ensures
        ({
            let o = spec_resolve(
                *tree,
                ResolveContext::spec_new(path, root),
                old(heap).buf@,
                MAX_STEPS as nat,
            );
            &&& final(heap).buf@ == o.heap
            &&& match r {
                Ok((start, len)) => {
                    &&& o.result is Ok
                    &&& start == o.ctx.buf_remainder
                    &&& start + len == MAX_BUF_LEN
                },
                Err(e) => o.result == Err::<bool, i64>(e),
            }
        }),
{
    let mut ctx = ResolveContext::new(path, root);
    match ctx.resolve(heap, tree) {
        Ok(()) => {
            let start: usize = ctx.buf_remainder;
            Ok((start, MAX_BUF_LEN - start))
        },
        Err(e) => Err(e),
    }
}

/// A resolution that is driven from outside, one step at a time: whoever
/// drives it reads what the next step needs and hands it over. The ceiling
/// on the steps is kept here, whatever the driver does.
pub struct Walk {
    pub ctx: ResolveContext,
    /// Steps that may still be taken.
    pub left: usize,
    /// A step ended the walk.
    pub stopped: bool,
}

impl Walk {
    pub open spec fn wf(self) -> bool {
        self.ctx.wf() && self.left <= MAX_STEPS
    }

    /// No further step is taken.
    pub open spec fn finished(self) -> bool {
        self.stopped || self.left == 0
    }

    /// The walk after one more step with the given reads.
    pub open spec fn spec_step(self, heap: Seq<u8>, reads: StepReads<'_>) -> Walk {
        let o = self.ctx.spec_step(heap, reads);
        Walk {
            ctx: o.ctx,
            left: (self.left - 1) as usize,
            stopped: o.result != Ok::<bool, i64>(true),
        }
    }

    /// A walk from `target` for a task whose root is `root`.
    pub fn new(target: PathRef, root: PathRef) -> (w: Walk)
        ensures
            w.wf(),
            w.ctx == ResolveContext::spec_new(target, root),
            w.left == MAX_STEPS,
            !w.stopped,
    {
        Walk { ctx: ResolveContext::new(target, root), left: MAX_STEPS, stopped: false }
    }

    /// Where the next step stands, for the driver to read there; nothing
    /// once the walk is finished.
    pub fn position(&self) -> (at: Option<PathRef>)
        ensures
            at == if self.finished() {
                None::<PathRef>
            } else {
                Some(PathRef { dentry: self.ctx.curr_dentry, mnt: self.ctx.curr_mnt })
            },
    {
        if self.stopped || self.left == 0 {
            None
        } else {
            Some(PathRef { dentry: self.ctx.curr_dentry, mnt: self.ctx.curr_mnt })
        }
    }

    /// The next step looks at what the driver reads: it does not once the
    /// walk stands on the task's root or was marked complete.
    pub fn needs_reads(&self) -> (b: bool)
        ensures
            b == !self.ctx.spec_is_resolved(),
            !b ==> forall|heap: Seq<u8>, reads: StepReads<'_>|
                #[trigger] self.ctx.spec_step(heap, reads) == (StepOutcome {
                    result: Ok(true),
                    ctx: ResolveContext { resolved: true, ..self.ctx },
                    heap,
                }),
    {
        !self.ctx.is_resolved()
    }

    /// Takes one step with what the driver read. A fault ends the walk.
    pub fn step(&mut self, heap: &mut BufferHeap, reads: &StepReads<'_>) -> (r: Result<(), i64>)
        requires
            old(self).wf(),
            !old(self).finished(),
        ensures
            final(self).wf(),
            *final(self) == old(self).spec_step(old(heap).buf@, *reads),
            final(heap).buf@ == old(self).ctx.spec_step(old(heap).buf@, *reads).heap,
            match r {
                Ok(()) => old(self).ctx.spec_step(old(heap).buf@, *reads).result is Ok,
                Err(e) => old(self).ctx.spec_step(old(heap).buf@, *reads).result == Err::<
                    bool,
                    i64,
                >(e),
            },
    {
        self.left = self.left - 1;
        match self.ctx.step(heap, reads) {
            Ok(true) => Ok(()),
            Ok(false) => {
                self.stopped = true;
                Ok(())
            },
            Err(e) => {
                self.stopped = true;
                Err(e)
            },
        }
    }

    /// Where the path stands in the buffer: its start and its length.
    pub fn path(&self) -> (r: (usize, usize))
        requires
            self.wf(),
        ensures
            r.0 == self.ctx.buf_remainder,
            r.0 + r.1 == MAX_BUF_LEN,
    {
        (self.ctx.buf_remainder, MAX_BUF_LEN - self.ctx.buf_remainder)
    }
}

/// The code with which a resolution ends on a core that has no scratch
/// buffer.
pub const NO_SCRATCH: i64 = -1;

/// The scratch buffers, one for each processor core. A resolution borrows
/// the buffer of its core for as long as it runs, so no two of them share one.
pub struct ScratchArena {
    pub heaps: Vec<BufferHeap>,
}

impl ScratchArena {
    /// An arena for `cores` cores, every buffer zeroed.
    pub fn new(cores: usize) -> (arena: ScratchArena)
        ensures
            arena.heaps@.len() == cores,
            forall|c: int|
                0 <= c < cores ==> (#[trigger] arena.heaps@[c]).buf@ == Seq::new(
                    HEAP_LEN as nat,
                    |i: int| 0u8,
                ),
    {
        let mut heaps: Vec<BufferHeap> = Vec::new();
        let mut i: usize = 0;
        while i < cores
            invariant
                0 <= i <= cores,
                heaps@.len() == i,
                forall|c: int|
                    0 <= c < i ==> (#[trigger] heaps@[c]).buf@ == Seq::new(
                        HEAP_LEN as nat,
                        |i: int| 0u8,
                    ),
            decreases cores - i,
        {
            heaps.push(BufferHeap::new());
            i = i + 1;
        }
        ScratchArena { heaps }
    }

    /// Resolves a path on the given core, into the buffer of that core. The
    /// buffers of the other cores are left alone.
    pub fn d_path_local(&mut self, core: usize, tree: &MountTree, path: PathRef, root: PathRef) -> (r:
        Result<(usize, usize), i64>)
        ensures
            final(self).heaps@.len() == old(self).heaps@.len(),
            forall|c: int|
                0 <= c < old(self).heaps@.len() && c != core ==> final(self).heaps@[c] == old(
                    self,
                ).heaps@[c],
            core >= old(self).heaps@.len() ==> r == Err::<(usize, usize), i64>(NO_SCRATCH),
            core < old(self).heaps@.len() ==> ({
                let o = spec_resolve(
                    *tree,
                    ResolveContext::spec_new(path, root),
                    old(self).heaps@[core as int].buf@,
                    MAX_STEPS as nat,
                );
                &&& final(self).heaps@[core as int].buf@ == o.heap
                &&& match r {
                    Ok((start, len)) => {
                        &&& o.result is Ok
                        &&& start == o.ctx.buf_remainder
                        &&& start + len == MAX_BUF_LEN
                    },
                    Err(e) => o.result == Err::<bool, i64>(e),
                }
            }),
    {
        if core >= self.heaps.len() {
            return Err(NO_SCRATCH);
        }
        d_path_local(tree, &mut self.heaps[core], path, root)
    }
}

} // verus!

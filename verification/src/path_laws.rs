//! What the resolver's walk amounts to: the path of an entry, read from the
//! root down, and as much of its end as the path area holds.

use crate::mount::MountTree;
use crate::path::{
    masked_len, next_remainder, prepended, spec_resolve, written, PathRef, ResolveContext,
    StepKind, HEAP_LEN, MAX_BUF_LEN, MAX_STEPS, SEPARATOR,
};
use vstd::prelude::*;

verus! {

/// What one entry adds to a path: a separator and its name.
pub open spec fn component(name: Seq<u8>) -> Seq<u8> {
    seq![SEPARATOR] + name.subrange(0, masked_len(name))
}

/// Which way the walk goes from `at`, for a task whose root is `root`.
pub open spec fn kind_at(tree: MountTree, root: PathRef, at: PathRef) -> StepKind {
    ResolveContext::spec_new(at, root).spec_kind(tree.spec_reads(at.dentry, at.mnt))
}

/// The parent entry of `at`, on the same mount.
pub open spec fn parent_of(tree: MountTree, at: PathRef) -> PathRef {
    PathRef { dentry: tree.dentries@[at.dentry as int].parent, mnt: at.mnt }
}

/// Where the mount of `at` is mounted: its mountpoint, on its parent mount.
pub open spec fn mounted_on(tree: MountTree, at: PathRef) -> PathRef {
    PathRef {
        dentry: tree.mounts@[at.mnt as int].mountpoint,
        mnt: tree.mounts@[at.mnt as int].parent,
    }
}

/// The path of `at` as far as `fuel` steps upward reach: the path of its
/// parent, then a separator and its own name. Components stand in the order
/// from parent to child. The task's root and the root of the topmost mount
/// have the empty path, and a mount's root has the path of its mountpoint.
pub open spec fn path_of(tree: MountTree, root: PathRef, at: PathRef, fuel: nat) -> Seq<u8>
    decreases fuel,
{
    if fuel == 0 {
        Seq::empty()
    } else {
        match kind_at(tree, root, at) {
            StepKind::Name => path_of(tree, root, parent_of(tree, at), (fuel - 1) as nat)
                + component(tree.name_of(at.dentry)),
            StepKind::Cross => path_of(tree, root, mounted_on(tree, at), (fuel - 1) as nat),
            _ => Seq::empty(),
        }
    }
}

/// The walk from `at` comes to the task's root or to the root of the topmost
/// mount in `fuel` steps or fewer, and no read faults on the way.
pub open spec fn reaches_root(tree: MountTree, root: PathRef, at: PathRef, fuel: nat) -> bool
    decreases fuel,
{
    if fuel == 0 {
        false
    } else {
        match kind_at(tree, root, at) {
            StepKind::Name => reaches_root(tree, root, parent_of(tree, at), (fuel - 1) as nat),
            StepKind::Cross => reaches_root(tree, root, mounted_on(tree, at), (fuel - 1) as nat),
            StepKind::Fault(_) => false,
            _ => true,
        }
    }
}

/// The bytes that are free before a path of `len` bytes.
pub open spec fn free_before(len: int) -> int {
    if len >= MAX_BUF_LEN {
        0
    } else {
        MAX_BUF_LEN - len
    }
}

/// The end of `s` that the path area holds: all of it, or its last
/// `MAX_BUF_LEN` bytes.
pub open spec fn last_bytes(s: Seq<u8>) -> Seq<u8> {
    if s.len() <= MAX_BUF_LEN {
        s
    } else {
        s.subrange(s.len() - MAX_BUF_LEN, s.len() as int)
    }
}

/// No name on the walk from `at` is exactly as long as the bytes that are
/// free when it is prepended, `done` bytes of path being written already.
/// (Such a name leaves no room for its separator, and the count of free bytes
/// wraps.)
pub open spec fn never_wraps(
    tree: MountTree,
    root: PathRef,
    at: PathRef,
    fuel: nat,
    done: int,
) -> bool
    decreases fuel,
{
    if fuel == 0 {
        true
    } else {
        match kind_at(tree, root, at) {
            StepKind::Name => {
                let n = masked_len(tree.name_of(at.dentry));
                n != free_before(done) && never_wraps(
                    tree,
                    root,
                    parent_of(tree, at),
                    (fuel - 1) as nat,
                    done + n + 1,
                )
            },
            StepKind::Cross => never_wraps(
                tree,
                root,
                mounted_on(tree, at),
                (fuel - 1) as nat,
                done,
            ),
            _ => true,
        }
    }
}

/// Prepending a name that does not fill the free bytes exactly leaves in the
/// path area the end of the longer path.
proof fn lemma_prepend_keeps_end(heap: Seq<u8>, name: Seq<u8>, done: Seq<u8>)
    requires
        heap.len() == HEAP_LEN,
        heap.subrange(free_before(done.len() as int), MAX_BUF_LEN as int) == last_bytes(done),
        masked_len(name) != free_before(done.len() as int),
    ensures
        ({
            let rem = free_before(done.len() as int);
            let more = component(name) + done;
            let next = next_remainder(name, rem);
            &&& next == free_before(more.len() as int)
            &&& prepended(heap, name, rem).len() == HEAP_LEN
            &&& prepended(heap, name, rem).subrange(next, MAX_BUF_LEN as int) == last_bytes(more)
        }),
{
    let rem = free_before(done.len() as int);
    let n = masked_len(name);
    let more = component(name) + done;
    let next = next_remainder(name, rem);
    let after = prepended(heap, name, rem);
    let data = written(name, rem);
    let old_end = heap.subrange(rem, MAX_BUF_LEN as int);
    assert(more.len() == n + 1 + done.len());
    assert(after.len() == HEAP_LEN);
    let got = after.subrange(next, MAX_BUF_LEN as int);
    let want = last_bytes(more);
    assert(got.len() == want.len());
    assert forall|j: int| 0 <= j < got.len() implies got[j] == want[j] by {
        if j < data.len() {
            assert(got[j] == data[j]);
        } else {
            assert(got[j] == heap[next + j]);
            assert(old_end[next + j - rem] == heap[next + j]);
        }
    }
    assert(got =~= want);
}

/// The walk, begun with `done` as the path already written, leaves in the
/// path area the end of `path_of(..) + done`.
proof fn lemma_walk_writes_path(
    tree: MountTree,
    ctx: ResolveContext,
    heap: Seq<u8>,
    fuel: nat,
    done: Seq<u8>,
)
    requires
        heap.len() == HEAP_LEN,
        ctx.resolved ==> ctx.spec_is_resolved() && ctx.root_mnt == ctx.curr_mnt && ctx.root_dentry
            == ctx.curr_dentry,
        ctx.buf_remainder as int == free_before(done.len() as int),
        heap.subrange(ctx.buf_remainder as int, MAX_BUF_LEN as int) == last_bytes(done),
        spec_resolve(tree, ctx, heap, fuel).result is Ok,
        never_wraps(
            tree,
            PathRef { dentry: ctx.root_dentry, mnt: ctx.root_mnt },
            PathRef { dentry: ctx.curr_dentry, mnt: ctx.curr_mnt },
            fuel,
            done.len() as int,
        ),
    ensures
        ({
            let o = spec_resolve(tree, ctx, heap, fuel);
            let full = path_of(
                tree,
                PathRef { dentry: ctx.root_dentry, mnt: ctx.root_mnt },
                PathRef { dentry: ctx.curr_dentry, mnt: ctx.curr_mnt },
                fuel,
            ) + done;
            &&& o.heap.len() == HEAP_LEN
            &&& o.ctx.buf_remainder as int == free_before(full.len() as int)
            &&& o.heap.subrange(o.ctx.buf_remainder as int, MAX_BUF_LEN as int) == last_bytes(
                full,
            )
        }),
    decreases fuel,
{
    let root = PathRef { dentry: ctx.root_dentry, mnt: ctx.root_mnt };
    let at = PathRef { dentry: ctx.curr_dentry, mnt: ctx.curr_mnt };
    if fuel == 0 {
        assert(path_of(tree, root, at, fuel) + done =~= done);
    } else {
        let reads = tree.spec_reads(ctx.curr_dentry, ctx.curr_mnt);
        let o = ctx.spec_step(heap, reads);
        let kind = ctx.spec_kind(reads);
        assert(kind == kind_at(tree, root, at));
        match kind {
            StepKind::Name => {
                let name = tree.name_of(at.dentry);
                let more = component(name) + done;
                lemma_prepend_keeps_end(heap, name, done);
                assert(o.ctx.buf_remainder as int == next_remainder(
                    name,
                    ctx.buf_remainder as int,
                ));
                lemma_walk_writes_path(tree, o.ctx, o.heap, (fuel - 1) as nat, more);
                assert(path_of(tree, root, at, fuel) + done =~= path_of(
                    tree,
                    root,
                    parent_of(tree, at),
                    (fuel - 1) as nat,
                ) + more);
            },
            StepKind::Cross => {
                lemma_walk_writes_path(tree, o.ctx, o.heap, (fuel - 1) as nat, done);
            },
            StepKind::Resolved => {
                lemma_walk_writes_path(tree, o.ctx, o.heap, (fuel - 1) as nat, done);
                lemma_path_at_root(tree, root, at, (fuel - 1) as nat);
                assert(path_of(tree, root, at, fuel) + done =~= done);
            },
            StepKind::Stop => {
                assert(path_of(tree, root, at, fuel) + done =~= done);
            },
            StepKind::Fault(_) => {},
        }
    }
}

/// The task's root has the empty path.
proof fn lemma_path_at_root(tree: MountTree, root: PathRef, at: PathRef, fuel: nat)
    requires
        root == at,
    ensures
        path_of(tree, root, at, fuel) == Seq::<u8>::empty(),
{
}

/// The resolver writes the path of its target. Where no read faults and no
/// name fills the free bytes exactly, the bytes that `d_path_local` hands
/// back are the path of the target as far as `MAX_STEPS` steps reach, with
/// its components in the order from parent to child; where that path is
/// longer than `MAX_BUF_LEN`, they are its last `MAX_BUF_LEN` bytes: the path
/// loses bytes at its front only, and never holds more than the path area.
pub proof fn lemma_resolved_path(tree: MountTree, heap: Seq<u8>, path: PathRef, root: PathRef)
    requires
        heap.len() == HEAP_LEN,
        spec_resolve(tree, ResolveContext::spec_new(path, root), heap, MAX_STEPS as nat).result
            is Ok,
        never_wraps(tree, root, path, MAX_STEPS as nat, 0),
    ensures
        ({
            let o = spec_resolve(
                tree,
                ResolveContext::spec_new(path, root),
                heap,
                MAX_STEPS as nat,
            );
            let full = path_of(tree, root, path, MAX_STEPS as nat);
            let start = o.ctx.buf_remainder as int;
            &&& 0 <= start <= MAX_BUF_LEN
            &&& start == free_before(full.len() as int)
            &&& o.heap.subrange(start, MAX_BUF_LEN as int) == last_bytes(full)
            &&& full.len() <= MAX_BUF_LEN ==> o.heap.subrange(start, MAX_BUF_LEN as int) == full
        }),
{
    let ctx = ResolveContext::spec_new(path, root);
    let done = Seq::<u8>::empty();
    assert(heap.subrange(MAX_BUF_LEN as int, MAX_BUF_LEN as int) =~= done);
    lemma_walk_writes_path(tree, ctx, heap, MAX_STEPS as nat, done);
    assert(path_of(tree, root, path, MAX_STEPS as nat) + done =~= path_of(
        tree,
        root,
        path,
        MAX_STEPS as nat,
    ));
}

/// A path that the path area holds in whole is written without a wrap: no
/// name of it finds exactly as many bytes free as it has.
pub proof fn lemma_short_path_never_wraps(
    tree: MountTree,
    root: PathRef,
    at: PathRef,
    fuel: nat,
    done: int,
)
    requires
        0 <= done,
        path_of(tree, root, at, fuel).len() + done <= MAX_BUF_LEN,
    ensures
        never_wraps(tree, root, at, fuel, done),
    decreases fuel,
{
    if fuel > 0 {
        match kind_at(tree, root, at) {
            StepKind::Name => {
                let n = masked_len(tree.name_of(at.dentry));
                assert(component(tree.name_of(at.dentry)).len() == n + 1);
                lemma_short_path_never_wraps(
                    tree,
                    root,
                    parent_of(tree, at),
                    (fuel - 1) as nat,
                    done + n + 1,
                );
            },
            StepKind::Cross => {
                lemma_short_path_never_wraps(
                    tree,
                    root,
                    mounted_on(tree, at),
                    (fuel - 1) as nat,
                    done,
                );
            },
            _ => {},
        }
    }
}

/// A path of at most `MAX_BUF_LEN` bytes is resolved exactly: where no read
/// faults, the bytes that `d_path_local` hands back are the path of the
/// target as far as `MAX_STEPS` steps reach, its components in the order
/// from parent to child.
pub proof fn lemma_resolved_path_in_full(
    tree: MountTree,
    heap: Seq<u8>,
    path: PathRef,
    root: PathRef,
)
    requires
        heap.len() == HEAP_LEN,
        spec_resolve(tree, ResolveContext::spec_new(path, root), heap, MAX_STEPS as nat).result
            is Ok,
        path_of(tree, root, path, MAX_STEPS as nat).len() <= MAX_BUF_LEN,
    ensures
        ({
            let o = spec_resolve(
                tree,
                ResolveContext::spec_new(path, root),
                heap,
                MAX_STEPS as nat,
            );
            let full = path_of(tree, root, path, MAX_STEPS as nat);
            &&& o.ctx.buf_remainder + full.len() == MAX_BUF_LEN
            &&& o.heap.subrange(o.ctx.buf_remainder as int, MAX_BUF_LEN as int) == full
        }),
{
    lemma_short_path_never_wraps(tree, root, path, MAX_STEPS as nat, 0);
    lemma_resolved_path(tree, heap, path, root);
}

/// More steps only add components at the front: the path that `n` steps
/// reach is the end of the path that `m >= n` steps reach. A walk that runs
/// out of steps therefore yields the end of the true path, cut between two
/// components.
pub proof fn lemma_path_is_end_of_longer(
    tree: MountTree,
    root: PathRef,
    at: PathRef,
    n: nat,
    m: nat,
)
    requires
        n <= m,
    ensures
        ({
            let short = path_of(tree, root, at, n);
            let long = path_of(tree, root, at, m);
            &&& short.len() <= long.len()
            &&& long.subrange(long.len() - short.len(), long.len() as int) == short
        }),
    decreases n,
{
    let short = path_of(tree, root, at, n);
    let long = path_of(tree, root, at, m);
    if n == 0 {
        assert(long.subrange(long.len() - short.len(), long.len() as int) =~= short);
    } else {
        match kind_at(tree, root, at) {
            StepKind::Name => {
                let up = parent_of(tree, at);
                lemma_path_is_end_of_longer(tree, root, up, (n - 1) as nat, (m - 1) as nat);
                let c = component(tree.name_of(at.dentry));
                let s1 = path_of(tree, root, up, (n - 1) as nat);
                let l1 = path_of(tree, root, up, (m - 1) as nat);
                assert(short == s1 + c);
                assert(long == l1 + c);
                let tail = long.subrange(long.len() - short.len(), long.len() as int);
                assert forall|j: int| 0 <= j < short.len() implies tail[j] == short[j] by {
                    if j < s1.len() {
                        assert(l1.subrange(l1.len() - s1.len(), l1.len() as int)[j] == s1[j]);
                    }
                }
                assert(tail =~= short);
            },
            StepKind::Cross => {
                lemma_path_is_end_of_longer(
                    tree,
                    root,
                    mounted_on(tree, at),
                    (n - 1) as nat,
                    (m - 1) as nat,
                );
            },
            _ => {
                assert(long.subrange(long.len() - short.len(), long.len() as int) =~= short);
            },
        }
    }
}

/// A walk that comes to a root in `n` steps has the whole path: more steps
/// add nothing. So every chain of at most `MAX_STEPS` entries and mounts
/// below the task's root is resolved in full.
pub proof fn lemma_path_complete(tree: MountTree, root: PathRef, at: PathRef, n: nat, m: nat)
    requires
        reaches_root(tree, root, at, n),
        n <= m,
    ensures
        path_of(tree, root, at, m) == path_of(tree, root, at, n),
    decreases n,
{
    if n > 0 {
        match kind_at(tree, root, at) {
            StepKind::Name => {
                lemma_path_complete(
                    tree,
                    root,
                    parent_of(tree, at),
                    (n - 1) as nat,
                    (m - 1) as nat,
                );
            },
            StepKind::Cross => {
                lemma_path_complete(
                    tree,
                    root,
                    mounted_on(tree, at),
                    (n - 1) as nat,
                    (m - 1) as nat,
                );
            },
            _ => {},
        }
    }
}

/// A walk that comes to a root meets no fault.
proof fn lemma_reaching_walk_is_ok(tree: MountTree, ctx: ResolveContext, heap: Seq<u8>, fuel: nat)
    requires
        ctx.resolved ==> ctx.root_mnt == ctx.curr_mnt && ctx.root_dentry == ctx.curr_dentry,
        fuel == 0 || reaches_root(
            tree,
            PathRef { dentry: ctx.root_dentry, mnt: ctx.root_mnt },
            PathRef { dentry: ctx.curr_dentry, mnt: ctx.curr_mnt },
            fuel,
        ),
    ensures
        spec_resolve(tree, ctx, heap, fuel).result is Ok,
    decreases fuel,
{
    if fuel > 0 {
        let root = PathRef { dentry: ctx.root_dentry, mnt: ctx.root_mnt };
        let at = PathRef { dentry: ctx.curr_dentry, mnt: ctx.curr_mnt };
        let reads = tree.spec_reads(ctx.curr_dentry, ctx.curr_mnt);
        let o = ctx.spec_step(heap, reads);
        assert(ctx.spec_kind(reads) == kind_at(tree, root, at));
        match ctx.spec_kind(reads) {
            StepKind::Name => {
                lemma_reaching_walk_is_ok(tree, o.ctx, o.heap, (fuel - 1) as nat);
            },
            StepKind::Cross => {
                lemma_reaching_walk_is_ok(tree, o.ctx, o.heap, (fuel - 1) as nat);
            },
            StepKind::Resolved => {
                lemma_stays_at_root(tree, root, (fuel - 1) as nat);
                lemma_reaching_walk_is_ok(tree, o.ctx, o.heap, (fuel - 1) as nat);
            },
            _ => {},
        }
    }
}

/// From the task's root the walk comes to a root at once.
proof fn lemma_stays_at_root(tree: MountTree, root: PathRef, fuel: nat)
    ensures
        fuel == 0 || reaches_root(tree, root, root, fuel),
{
}

/// The law of the resolver for every chain of at most `MAX_STEPS` entries
/// and mounts below a root, none of whose names fills the free bytes
/// exactly: the resolution succeeds, what it hands back is never longer than
/// `MAX_BUF_LEN`, and it is the true path of the target, the path that any
/// number of steps reaches, with its components from parent to child; of a
/// true path longer than `MAX_BUF_LEN`, it is the last `MAX_BUF_LEN` bytes.
pub proof fn lemma_reachable_path(
    tree: MountTree,
    heap: Seq<u8>,
    path: PathRef,
    root: PathRef,
    steps: nat,
)
    requires
        heap.len() == HEAP_LEN,
        reaches_root(tree, root, path, MAX_STEPS as nat),
        never_wraps(tree, root, path, MAX_STEPS as nat, 0),
        steps >= MAX_STEPS,
    ensures
        ({
            let o = spec_resolve(
                tree,
                ResolveContext::spec_new(path, root),
                heap,
                MAX_STEPS as nat,
            );
            let truth = path_of(tree, root, path, steps);
            let start = o.ctx.buf_remainder as int;
            &&& o.result is Ok
            &&& 0 <= start <= MAX_BUF_LEN
            &&& o.heap.subrange(start, MAX_BUF_LEN as int) == last_bytes(truth)
            &&& truth.len() <= MAX_BUF_LEN ==> o.heap.subrange(start, MAX_BUF_LEN as int) == truth
        }),
{
    lemma_reaching_walk_is_ok(tree, ResolveContext::spec_new(path, root), heap, MAX_STEPS as nat);
    lemma_resolved_path(tree, heap, path, root);
    lemma_path_complete(tree, root, path, MAX_STEPS as nat, steps);
}

} // verus!

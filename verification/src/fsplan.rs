//! The root-filesystem switch: the exact ordered plan of mount operations the
//! Init Process performs, and an abstract model of the calling process's
//! mount state against which the plan's ordering constraints and outcome are
//! proved.

use vstd::prelude::*;
use crate::config::IsolationConfig;

verus! {

/// The facts about the calling process's mount state that the root switch
/// depends on and changes.
#[derive(PartialEq, Eq, Structural, Clone, Copy, Debug)]
pub struct FsView {
    /// Mount events no longer propagate between this process's tree and the
    /// host (everything below `/` is recursively private).
    pub propagation_private: bool,
    /// The prepared rootfs directory is a mount point distinct from its
    /// parent mount.
    pub new_root_is_mount: bool,
    /// The scratch directory that parks the old root exists inside rootfs.
    pub put_old_exists: bool,
    /// The process's root is the prepared rootfs.
    pub root_switched: bool,
    /// The old host root is still attached, and so reachable, from this
    /// process's root.
    pub old_root_attached: bool,
    /// The working directory lies inside the process's current root.
    pub cwd_in_root: bool,
    /// `/proc` is a fresh procfs reflecting the new PID namespace.
    pub proc_fresh: bool,
}

/// The kinds of operation in the switch plan.
#[derive(PartialEq, Eq, Structural, Clone, Copy, Debug)]
pub enum MountKind {
    /// Remount `/` recursively private.
    MakeTreePrivate,
    /// Bind-mount the new root onto itself.
    BindNewRoot,
    /// Remove a scratch directory left by an earlier launch, if present.
    RemoveStalePutOld,
    /// Create the scratch directory with fully open permissions.
    CreatePutOld,
    /// Swap the process root for the new root, parking the old root in the
    /// scratch directory.
    PivotToNewRoot,
    /// Re-anchor the working directory at the new root.
    ChdirToRoot,
    /// Remove, recreate and mount `/proc` for the new PID namespace.
    RemountProc,
    /// Lazily detach the parked old root.
    DetachOldRoot,
    /// Remove the now-empty scratch directory.
    RemovePutOld,
}

/// One operation of the switch plan, with the paths it is performed on.
pub enum MountStep {
    /// Performed on `/`.
    MakeTreePrivate,
    /// Performed on the rootfs path (host view).
    BindNewRoot(String),
    /// Performed on the scratch path (host view).
    RemoveStalePutOld(String),
    /// Performed on the scratch path (host view).
    CreatePutOld(String),
    /// New root path and scratch path (both host view).
    PivotToNewRoot(String, String),
    /// Performed on `/`.
    ChdirToRoot,
    /// Performed on `/proc` of the new root.
    RemountProc,
    /// Performed on the scratch path as seen from the new root.
    DetachOldRoot(String),
    /// Performed on the scratch path as seen from the new root.
    RemovePutOld(String),
}

/// The kind of a plan step.
pub open spec fn kind_of(s: MountStep) -> MountKind {
    match s {
        MountStep::MakeTreePrivate => MountKind::MakeTreePrivate,
        MountStep::BindNewRoot(_) => MountKind::BindNewRoot,
        MountStep::RemoveStalePutOld(_) => MountKind::RemoveStalePutOld,
        MountStep::CreatePutOld(_) => MountKind::CreatePutOld,
        MountStep::PivotToNewRoot(_, _) => MountKind::PivotToNewRoot,
        MountStep::ChdirToRoot => MountKind::ChdirToRoot,
        MountStep::RemountProc => MountKind::RemountProc,
        MountStep::DetachOldRoot(_) => MountKind::DetachOldRoot,
        MountStep::RemovePutOld(_) => MountKind::RemovePutOld,
    }
}

/// Effect of one operation on the abstract mount state.
pub open spec fn apply_op(s: FsView, k: MountKind) -> FsView {
    match k {
        MountKind::MakeTreePrivate => FsView { propagation_private: true, ..s },
        MountKind::BindNewRoot => FsView { new_root_is_mount: true, ..s },
        MountKind::RemoveStalePutOld => FsView { put_old_exists: false, ..s },
        MountKind::CreatePutOld => FsView { put_old_exists: true, ..s },
        MountKind::PivotToNewRoot => FsView { root_switched: true, cwd_in_root: false, ..s },
        MountKind::ChdirToRoot => FsView { cwd_in_root: true, ..s },
        MountKind::RemountProc => FsView { proc_fresh: true, ..s },
        MountKind::DetachOldRoot => FsView { old_root_attached: false, ..s },
        MountKind::RemovePutOld => FsView { put_old_exists: false, ..s },
    }
}

/// The kernel-imposed precondition of each operation. `RemoveStalePutOld` is
/// a remove-if-present, so it needs no precondition of its own.
pub open spec fn op_enabled(s: FsView, k: MountKind) -> bool {
    match k {
        MountKind::MakeTreePrivate => !s.root_switched,
        MountKind::BindNewRoot => s.propagation_private && !s.root_switched,
        MountKind::RemoveStalePutOld => !s.root_switched,
        MountKind::CreatePutOld => !s.put_old_exists && !s.root_switched,
        MountKind::PivotToNewRoot => s.propagation_private && s.new_root_is_mount
            && s.put_old_exists && !s.root_switched,
        MountKind::ChdirToRoot => s.root_switched,
        MountKind::RemountProc => s.root_switched && s.cwd_in_root,
        MountKind::DetachOldRoot => s.root_switched && s.old_root_attached,
        MountKind::RemovePutOld => s.root_switched && !s.old_root_attached && s.put_old_exists,
    }
}

/// The state after running `ops` from `s`, in order.
pub open spec fn run_ops(s: FsView, ops: Seq<MountKind>) -> FsView
    decreases ops.len(),
{
    if ops.len() == 0 {
        s
    } else {
        run_ops(apply_op(s, ops[0]), ops.skip(1))
    }
}

/// Every operation of `ops`, run in order from `s`, meets its precondition.
pub open spec fn all_enabled(s: FsView, ops: Seq<MountKind>) -> bool
    decreases ops.len(),
{
    if ops.len() == 0 {
        true
    } else {
        op_enabled(s, ops[0]) && all_enabled(apply_op(s, ops[0]), ops.skip(1))
    }
}

/// The switch order: private propagation, then the bind mount, then a clean
/// scratch directory, then the pivot, and only then the re-anchoring, the
/// procfs remount and the removal of every path back to the old root.
pub open spec fn switch_order() -> Seq<MountKind> {
    seq![
        MountKind::MakeTreePrivate,
        MountKind::BindNewRoot,
        MountKind::RemoveStalePutOld,
        MountKind::CreatePutOld,
        MountKind::PivotToNewRoot,
        MountKind::ChdirToRoot,
        MountKind::RemountProc,
        MountKind::DetachOldRoot,
        MountKind::RemovePutOld,
    ]
}

/// A process that has just entered its own fresh mount namespace: its root is
/// still the (reachable) old root, whatever else an earlier launch left
/// behind on disk.
pub open spec fn pre_switch(s: FsView) -> bool {
    &&& !s.root_switched
    &&& s.old_root_attached
}

/// A completed switch: the root is the prepared rootfs, the old host root is
/// unreachable, the scratch directory is gone, the working directory is
/// anchored in the new root, and `/proc` is fresh.
pub open spec fn switch_complete(s: FsView) -> bool {
    &&& s.root_switched
    &&& !s.old_root_attached
    &&& !s.put_old_exists
    &&& s.cwd_in_root
    &&& s.proc_fresh
    &&& s.propagation_private
}

/// Law: from any pre-switch state, the switch order meets every operation's
/// precondition and ends in a completed switch. Because a completed switch
/// leaves no scratch directory and the order tolerates a stale one, the same
/// order runs again against the same context directory.
pub proof fn lemma_switch_order_correct(s0: FsView)
    requires
        pre_switch(s0),
    ensures
        all_enabled(s0, switch_order()),
        switch_complete(run_ops(s0, switch_order())),
{
    reveal_with_fuel(run_ops, 10);
    reveal_with_fuel(all_enabled, 10);
    let ops = switch_order();
    let s1 = apply_op(s0, MountKind::MakeTreePrivate);
    let s2 = apply_op(s1, MountKind::BindNewRoot);
    let s3 = apply_op(s2, MountKind::RemoveStalePutOld);
    let s4 = apply_op(s3, MountKind::CreatePutOld);
    let s5 = apply_op(s4, MountKind::PivotToNewRoot);
    let s6 = apply_op(s5, MountKind::ChdirToRoot);
    let s7 = apply_op(s6, MountKind::RemountProc);
    let s8 = apply_op(s7, MountKind::DetachOldRoot);
    let s9 = apply_op(s8, MountKind::RemovePutOld);
    assert(ops.skip(1).skip(1) =~= ops.skip(2));
    assert(ops.skip(2).skip(1) =~= ops.skip(3));
    assert(ops.skip(3).skip(1) =~= ops.skip(4));
    assert(ops.skip(4).skip(1) =~= ops.skip(5));
    assert(ops.skip(5).skip(1) =~= ops.skip(6));
    assert(ops.skip(6).skip(1) =~= ops.skip(7));
    assert(ops.skip(7).skip(1) =~= ops.skip(8));
    assert(ops.skip(8).skip(1) =~= ops.skip(9));
    assert(ops.skip(9) =~= Seq::<MountKind>::empty());
    assert(run_ops(s0, ops) == s9);
    assert(all_enabled(s0, ops));
}

/// Mirror of `apply_op` for running the model outside proofs.
pub fn apply_op_exec(s: FsView, k: MountKind) -> (r: FsView)
    ensures
        r == apply_op(s, k),
{
    match k {
        MountKind::MakeTreePrivate => FsView { propagation_private: true, ..s },
        MountKind::BindNewRoot => FsView { new_root_is_mount: true, ..s },
        MountKind::RemoveStalePutOld => FsView { put_old_exists: false, ..s },
        MountKind::CreatePutOld => FsView { put_old_exists: true, ..s },
        MountKind::PivotToNewRoot => FsView { root_switched: true, cwd_in_root: false, ..s },
        MountKind::ChdirToRoot => FsView { cwd_in_root: true, ..s },
        MountKind::RemountProc => FsView { proc_fresh: true, ..s },
        MountKind::DetachOldRoot => FsView { old_root_attached: false, ..s },
        MountKind::RemovePutOld => FsView { put_old_exists: false, ..s },
    }
}

/// Mirror of `op_enabled` for running the model outside proofs.
pub fn op_enabled_exec(s: FsView, k: MountKind) -> (r: bool)
    ensures
        r == op_enabled(s, k),
{
    match k {
        MountKind::MakeTreePrivate => !s.root_switched,
        MountKind::BindNewRoot => s.propagation_private && !s.root_switched,
        MountKind::RemoveStalePutOld => !s.root_switched,
        MountKind::CreatePutOld => !s.put_old_exists && !s.root_switched,
        MountKind::PivotToNewRoot => s.propagation_private && s.new_root_is_mount
            && s.put_old_exists && !s.root_switched,
        MountKind::ChdirToRoot => s.root_switched,
        MountKind::RemountProc => s.root_switched && s.cwd_in_root,
        MountKind::DetachOldRoot => s.root_switched && s.old_root_attached,
        MountKind::RemovePutOld => s.root_switched && !s.old_root_attached && s.put_old_exists,
    }
}

/// Runs a plan against the abstract model: the state it ends in, and whether
/// every operation met its precondition when reached.
pub fn run_plan(s0: FsView, plan: &Vec<MountStep>) -> (r: (FsView, bool))
    ensures
        r.0 == run_ops(s0, plan@.map_values(|st: MountStep| kind_of(st))),
        r.1 == all_enabled(s0, plan@.map_values(|st: MountStep| kind_of(st))),
{
    let ghost ops = plan@.map_values(|st: MountStep| kind_of(st));
    let mut s = s0;
    let mut ok = true;
    let mut i: usize = 0;
    proof {
        assert(ops.skip(0) =~= ops);
    }
    while i < plan.len()
        invariant
            i <= plan@.len(),
            ops == plan@.map_values(|st: MountStep| kind_of(st)),
            ops.len() == plan@.len(),
            run_ops(s, ops.skip(i as int)) == run_ops(s0, ops),
            (ok && all_enabled(s, ops.skip(i as int))) == all_enabled(s0, ops),
        decreases plan@.len() - i,
    {
        let k = step_kind(&plan[i]);
        proof {
            assert(ops.skip(i as int)[0] == ops[i as int]);
            assert(ops.skip(i as int).skip(1) =~= ops.skip(i as int + 1));
        }
        ok = ok && op_enabled_exec(s, k);
        s = apply_op_exec(s, k);
        i = i + 1;
    }
    proof {
        assert(ops.skip(i as int) =~= Seq::<MountKind>::empty());
    }
    (s, ok)
}

/// The kind of a plan step.
pub fn step_kind(s: &MountStep) -> (k: MountKind)
    ensures
        k == kind_of(*s),
{
    match s {
        MountStep::MakeTreePrivate => MountKind::MakeTreePrivate,
        MountStep::BindNewRoot(_) => MountKind::BindNewRoot,
        MountStep::RemoveStalePutOld(_) => MountKind::RemoveStalePutOld,
        MountStep::CreatePutOld(_) => MountKind::CreatePutOld,
        MountStep::PivotToNewRoot(_, _) => MountKind::PivotToNewRoot,
        MountStep::ChdirToRoot => MountKind::ChdirToRoot,
        MountStep::RemountProc => MountKind::RemountProc,
        MountStep::DetachOldRoot(_) => MountKind::DetachOldRoot,
        MountStep::RemovePutOld(_) => MountKind::RemovePutOld,
    }
}

/// View of the scratch path as the pivoted process sees it.
pub open spec fn pivoted_put_old_path() -> Seq<char> {
    "/.put_old"@
}

/// The root-switch plan for `cfg`: the operations of `switch_order`, each
/// carrying the path it is performed on. The scratch directory is addressed
/// by its host-view path before the pivot and by its new-root path after.
pub fn root_switch_plan(cfg: &IsolationConfig) -> (r: Vec<MountStep>)
    ensures
        r@.map_values(|st: MountStep| kind_of(st)) == switch_order(),
        (r@[1] matches MountStep::BindNewRoot(p) && p@ == cfg.rootfs_path_spec()),
        (r@[2] matches MountStep::RemoveStalePutOld(p) && p@ == cfg.put_old_path_spec()),
        (r@[3] matches MountStep::CreatePutOld(p) && p@ == cfg.put_old_path_spec()),
        (r@[4] matches MountStep::PivotToNewRoot(p, q) && p@ == cfg.rootfs_path_spec()
            && q@ == cfg.put_old_path_spec()),
        (r@[7] matches MountStep::DetachOldRoot(p) && p@ == pivoted_put_old_path()),
        (r@[8] matches MountStep::RemovePutOld(p) && p@ == pivoted_put_old_path()),
{
    let mut r: Vec<MountStep> = Vec::new();
    r.push(MountStep::MakeTreePrivate);
    r.push(MountStep::BindNewRoot(cfg.rootfs_path()));
    r.push(MountStep::RemoveStalePutOld(cfg.put_old_path()));
    r.push(MountStep::CreatePutOld(cfg.put_old_path()));
    r.push(MountStep::PivotToNewRoot(cfg.rootfs_path(), cfg.put_old_path()));
    r.push(MountStep::ChdirToRoot);
    r.push(MountStep::RemountProc);
    r.push(MountStep::DetachOldRoot("/.put_old".to_owned()));
    r.push(MountStep::RemovePutOld("/.put_old".to_owned()));
    proof {
        assert(r@.map_values(|st: MountStep| kind_of(st)) =~= switch_order());
    }
    r
}

} // verus!

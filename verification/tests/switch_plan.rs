use isoproc::config::IsolationConfig;
use isoproc::fsplan::run_plan;
use isoproc::fsplan::root_switch_plan;
use isoproc::fsplan::FsView;
use isoproc::fsplan::MountStep;

fn launch1_config() -> IsolationConfig {
    IsolationConfig {
        context_dir: String::from("/tmp/launch1"),
        environment: vec![(String::from("FOO"), String::from("bar"))],
    }
}

/// A process that has just entered a fresh mount namespace, with the scratch
/// directory possibly left on disk by an earlier launch.
fn fresh_mount_namespace(stale_put_old: bool) -> FsView {
    FsView {
        propagation_private: false,
        new_root_is_mount: false,
        put_old_exists: stale_put_old,
        root_switched: false,
        old_root_attached: true,
        cwd_in_root: true,
        proc_fresh: false,
    }
}

#[test]
fn plan_carries_the_configured_paths() {
    let cfg = launch1_config();
    let plan = root_switch_plan(&cfg);
    assert_eq!(plan.len(), 9);
    assert!(matches!(plan[0], MountStep::MakeTreePrivate));
    match &plan[1] {
        MountStep::BindNewRoot(p) => assert_eq!(p, "/tmp/launch1/rootfs"),
        other => panic!("unexpected step: {:?}", step_name(other)),
    }
    match &plan[2] {
        MountStep::RemoveStalePutOld(p) => assert_eq!(p, "/tmp/launch1/rootfs/.put_old"),
        other => panic!("unexpected step: {:?}", step_name(other)),
    }
    match &plan[3] {
        MountStep::CreatePutOld(p) => assert_eq!(p, "/tmp/launch1/rootfs/.put_old"),
        other => panic!("unexpected step: {:?}", step_name(other)),
    }
    match &plan[4] {
        MountStep::PivotToNewRoot(new_root, put_old) => {
            assert_eq!(new_root, "/tmp/launch1/rootfs");
            assert_eq!(put_old, "/tmp/launch1/rootfs/.put_old");
        }
        other => panic!("unexpected step: {:?}", step_name(other)),
    }
    assert!(matches!(plan[5], MountStep::ChdirToRoot));
    assert!(matches!(plan[6], MountStep::RemountProc));
    match &plan[7] {
        MountStep::DetachOldRoot(p) => assert_eq!(p, "/.put_old"),
        other => panic!("unexpected step: {:?}", step_name(other)),
    }
    match &plan[8] {
        MountStep::RemovePutOld(p) => assert_eq!(p, "/.put_old"),
        other => panic!("unexpected step: {:?}", step_name(other)),
    }
}

fn step_name(step: &MountStep) -> &'static str {
    match step {
        MountStep::MakeTreePrivate => "MakeTreePrivate",
        MountStep::BindNewRoot(_) => "BindNewRoot",
        MountStep::RemoveStalePutOld(_) => "RemoveStalePutOld",
        MountStep::CreatePutOld(_) => "CreatePutOld",
        MountStep::PivotToNewRoot(_, _) => "PivotToNewRoot",
        MountStep::ChdirToRoot => "ChdirToRoot",
        MountStep::RemountProc => "RemountProc",
        MountStep::DetachOldRoot(_) => "DetachOldRoot",
        MountStep::RemovePutOld(_) => "RemovePutOld",
    }
}

#[test]
fn switch_ends_with_new_root_and_host_unreachable() {
    let cfg = launch1_config();
    let plan = root_switch_plan(&cfg);
    let (end, all_enabled) = run_plan(fresh_mount_namespace(false), &plan);
    assert!(all_enabled);
    assert!(end.root_switched);
    assert!(!end.old_root_attached);
    assert!(!end.put_old_exists);
    assert!(end.proc_fresh);
    assert!(end.cwd_in_root);
    assert!(end.propagation_private);
}

#[test]
fn switch_tolerates_stale_scratch_directory() {
    // A second launch against the same context directory: the scratch
    // directory is still on disk, and the run still succeeds and removes it.
    let cfg = launch1_config();
    let plan = root_switch_plan(&cfg);
    let (end, all_enabled) = run_plan(fresh_mount_namespace(true), &plan);
    assert!(all_enabled);
    assert!(end.root_switched);
    assert!(!end.put_old_exists);
    assert!(!end.old_root_attached);
}

#[test]
fn pivot_before_bind_mount_is_refused() {
    // Reordering the plan so the pivot comes before the bind mount violates
    // the kernel's precondition; the model reports the violation.
    let cfg = launch1_config();
    let plan = vec![
        MountStep::MakeTreePrivate,
        MountStep::RemoveStalePutOld(cfg.put_old_path()),
        MountStep::CreatePutOld(cfg.put_old_path()),
        MountStep::PivotToNewRoot(cfg.rootfs_path(), cfg.put_old_path()),
        MountStep::ChdirToRoot,
    ];
    let (_, all_enabled) = run_plan(fresh_mount_namespace(false), &plan);
    assert!(!all_enabled);
}

#[test]
fn removing_scratch_before_detach_is_refused() {
    let cfg = launch1_config();
    let plan = vec![
        MountStep::MakeTreePrivate,
        MountStep::BindNewRoot(cfg.rootfs_path()),
        MountStep::RemoveStalePutOld(cfg.put_old_path()),
        MountStep::CreatePutOld(cfg.put_old_path()),
        MountStep::PivotToNewRoot(cfg.rootfs_path(), cfg.put_old_path()),
        MountStep::ChdirToRoot,
        MountStep::RemountProc,
        // The old root is still attached here, so the scratch directory
        // cannot be removed yet.
        MountStep::RemovePutOld(String::from("/.put_old")),
    ];
    let (end, all_enabled) = run_plan(fresh_mount_namespace(false), &plan);
    assert!(!all_enabled);
    assert!(end.old_root_attached);
}

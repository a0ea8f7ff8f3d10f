use isoproc::config::IsolationConfig;
use isoproc::ident::identity_map_writes;
use isoproc::numeral::decimal_string;
use isoproc::protocol::barrier_token;
use isoproc::protocol::exec_image;
use isoproc::protocol::holder_next_action;
use isoproc::protocol::holder_step;
use isoproc::protocol::init_plan;
use isoproc::protocol::isolation_hostname;
use isoproc::protocol::ChildStatus;
use isoproc::protocol::HolderAction;
use isoproc::protocol::HolderEvent;
use isoproc::protocol::HolderState;
use isoproc::protocol::InitStep;
use isoproc::protocol::orchestrator_next_action;
use isoproc::protocol::orchestrator_step;
use isoproc::protocol::OrchestratorAction;
use isoproc::protocol::OrchestratorEvent;
use isoproc::protocol::OrchestratorState;

fn launch1_config() -> IsolationConfig {
    IsolationConfig {
        context_dir: String::from("/tmp/launch1"),
        environment: vec![(String::from("FOO"), String::from("bar"))],
    }
}

#[test]
fn decimal_rendering() {
    assert_eq!(decimal_string(0), "0");
    assert_eq!(decimal_string(7), "7");
    assert_eq!(decimal_string(1000), "1000");
    assert_eq!(decimal_string(4321), "4321");
    assert_eq!(decimal_string(u64::MAX), "18446744073709551615");
}

#[test]
fn identity_map_plan_for_pid() {
    let writes = identity_map_writes(4321);
    assert_eq!(writes.len(), 3);
    assert_eq!(writes[0].path, "/proc/4321/uid_map");
    assert_eq!(writes[0].content, "0 1000 1\n");
    assert_eq!(writes[1].path, "/proc/4321/setgroups");
    assert_eq!(writes[1].content, "deny");
    assert_eq!(writes[2].path, "/proc/4321/gid_map");
    assert_eq!(writes[2].content, "0 1000 1\n");
}

#[test]
fn identity_map_order_is_uid_setgroups_gid() {
    let writes = identity_map_writes(1);
    assert!(writes[0].path.ends_with("/uid_map"));
    assert!(writes[1].path.ends_with("/setgroups"));
    assert!(writes[2].path.ends_with("/gid_map"));
}

#[test]
fn derived_paths() {
    let cfg = launch1_config();
    assert_eq!(cfg.rootfs_path(), "/tmp/launch1/rootfs");
    assert_eq!(cfg.put_old_path(), "/tmp/launch1/rootfs/.put_old");
}

#[test]
fn exec_image_for_launch1() {
    let cfg = launch1_config();
    let image = exec_image(&cfg);
    assert_eq!(image.program, "/bin/sh");
    assert_eq!(image.argv, vec![String::from("sh"), String::from("-i")]);
    assert_eq!(image.env, vec![String::from("FOO=bar")]);
}

#[test]
fn env_entries_keep_configuration_order() {
    let cfg = IsolationConfig {
        context_dir: String::from("/tmp/launch2"),
        environment: vec![
            (String::from("A"), String::from("1")),
            (String::from("B"), String::from("")),
            (String::from("PATH"), String::from("/bin:/usr/bin")),
        ],
    };
    assert_eq!(
        cfg.env_entries(),
        vec![
            String::from("A=1"),
            String::from("B="),
            String::from("PATH=/bin:/usr/bin"),
        ]
    );
}

#[test]
fn hostname_marker() {
    assert_eq!(isolation_hostname(), "isoproc");
}

#[test]
fn barrier_token_is_two_bytes() {
    let token = barrier_token();
    assert_eq!(token, b"OK".to_vec());
    assert_eq!(token.len(), 2);
}

#[test]
fn holder_runs_whole_launch_and_propagates_exit_code() {
    let events = [
        HolderEvent::Completed,
        HolderEvent::Completed,
        HolderEvent::Completed,
        HolderEvent::OuterAckArrived,
        HolderEvent::Completed,
        HolderEvent::Completed,
        HolderEvent::InnerReadyArrived,
        HolderEvent::Completed,
        HolderEvent::ChildExited(ChildStatus::Exited(7)),
        HolderEvent::Completed,
    ];
    let expected_actions = [
        HolderAction::OpenRootPermissions,
        HolderAction::UnshareUserPidNet,
        HolderAction::SendOuterToken,
        HolderAction::AwaitOuterAck,
        HolderAction::ForkInit,
        HolderAction::CloseInnerSend,
        HolderAction::AwaitInnerReady,
        HolderAction::SendOuterReadyAck,
        HolderAction::AwaitChildExit,
        HolderAction::SendOuterFinalAck,
    ];
    let mut state = HolderState::Start;
    for (event, expected) in events.iter().zip(expected_actions.iter()) {
        assert_eq!(holder_next_action(&state), *expected);
        state = holder_step(state, *event);
    }
    assert_eq!(state, HolderState::Done(ChildStatus::Exited(7)));
    assert_eq!(holder_next_action(&state), HolderAction::Halt);
}

#[test]
fn holder_reports_signal_termination_and_still_acknowledges() {
    let state = holder_step(
        HolderState::EnvAnnounced,
        HolderEvent::ChildExited(ChildStatus::Signaled(9)),
    );
    assert_eq!(state, HolderState::ChildReaped(ChildStatus::Signaled(9)));
    assert_eq!(holder_next_action(&state), HolderAction::SendOuterFinalAck);
    let state = holder_step(state, HolderEvent::Completed);
    assert_eq!(state, HolderState::Done(ChildStatus::Signaled(9)));
}

#[test]
fn holder_stays_blocked_without_identity_map_ack() {
    let mut state = HolderState::Start;
    for _ in 0..3 {
        state = holder_step(state, HolderEvent::Completed);
    }
    assert_eq!(state, HolderState::ReadyAnnounced);
    assert_eq!(holder_next_action(&state), HolderAction::AwaitOuterAck);
    // Whatever else arrives, the Holder does not move past the first barrier:
    // it never reaches the state whose pending action is the fork.
    let stray = [
        HolderEvent::Completed,
        HolderEvent::InnerReadyArrived,
        HolderEvent::ChildExited(ChildStatus::Exited(0)),
        HolderEvent::Completed,
    ];
    for event in stray.iter() {
        state = holder_step(state, *event);
        assert_eq!(state, HolderState::ReadyAnnounced);
        assert_ne!(holder_next_action(&state), HolderAction::ForkInit);
    }
    // The acknowledgment alone unblocks it.
    state = holder_step(state, HolderEvent::OuterAckArrived);
    assert_eq!(state, HolderState::IdentityMapped);
    assert_eq!(holder_next_action(&state), HolderAction::ForkInit);
}

#[test]
fn orchestrator_acknowledges_only_after_installing_the_map() {
    let mut state = OrchestratorState::AwaitingReady;
    assert_eq!(
        orchestrator_next_action(&state),
        OrchestratorAction::AwaitHolderReady
    );
    // Before the Holder announces itself, nothing moves the Orchestrator to
    // the acknowledgment.
    state = orchestrator_step(state, OrchestratorEvent::Completed);
    assert_eq!(state, OrchestratorState::AwaitingReady);
    state = orchestrator_step(state, OrchestratorEvent::HolderReadyArrived);
    assert_eq!(
        orchestrator_next_action(&state),
        OrchestratorAction::InstallIdentityMap
    );
    // Only the completed installation makes the acknowledgment pending.
    state = orchestrator_step(state, OrchestratorEvent::Completed);
    assert_eq!(orchestrator_next_action(&state), OrchestratorAction::SendOuterAck);
    state = orchestrator_step(state, OrchestratorEvent::Completed);
    state = orchestrator_step(state, OrchestratorEvent::EnvReadyArrived);
    state = orchestrator_step(state, OrchestratorEvent::FinalAckArrived);
    assert_eq!(state, OrchestratorState::LaunchComplete);
    assert_eq!(orchestrator_next_action(&state), OrchestratorAction::Halt);
}

#[test]
fn init_plan_order() {
    let plan = init_plan();
    assert_eq!(
        plan,
        vec![
            InitStep::CloseInnerRecv,
            InitStep::AssumeRootGid,
            InitStep::AssumeRootUid,
            InitStep::UnshareMountUts,
            InitStep::SwitchRoot,
            InitStep::SetIsolationHostname,
            InitStep::SendInnerToken,
            InitStep::ExecTarget,
        ]
    );
}

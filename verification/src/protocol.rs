//! The launch choreography: the Namespace Holder's one-way state machine over
//! the two barrier channels, the Init Process's fixed step order, the barrier
//! token, and the image the Init Process finally execs. A driver performs
//! each pending action with real syscalls and feeds the completion back as an
//! event; the ordering guarantees of the protocol are proved here.

use vstd::prelude::*;
use vstd::string::StringExecFns;
use crate::config::IsolationConfig;

verus! {

/// Exit of the supervised Init Process, as observed by the Holder's wait.
#[derive(PartialEq, Eq, Structural, Clone, Copy, Debug)]
pub enum ChildStatus {
    /// Normal exit with this code.
    Exited(i32),
    /// Termination by this signal.
    Signaled(i32),
    /// Any other observation, including a failed wait.
    Other,
}

/// States of the Namespace Holder, in protocol order. The machine never moves
/// backwards: namespaces entered and identities assumed are irreversible.
#[derive(PartialEq, Eq, Structural, Clone, Copy, Debug)]
pub enum HolderState {
    /// Nothing done yet.
    Start,
    /// The new root's permissions are fully opened.
    PermsOpened,
    /// Sole member of fresh user, PID and network namespaces, still unmapped.
    Unshared,
    /// Readiness token written; blocked on the outer channel for the
    /// Orchestrator's identity-map acknowledgment.
    ReadyAnnounced,
    /// The acknowledgment arrived: the identity map is installed.
    IdentityMapped,
    /// Inner channel created and the Init Process forked (this is the parent
    /// branch).
    InitForked,
    /// The inner send end, owned by the Init Process, is closed here.
    InnerSendClosed,
    /// The Init Process's readiness token arrived on the inner channel.
    InitReady,
    /// The full-environment acknowledgment is forwarded on the outer channel;
    /// now supervising the Init Process.
    EnvAnnounced,
    /// The Init Process's exit was observed with this status.
    ChildReaped(ChildStatus),
    /// The final acknowledgment is written; supervision is complete and the
    /// observed status stands.
    Done(ChildStatus),
}

/// What the Holder does next in each state. Await actions block; the rest are
/// local work.
#[derive(PartialEq, Eq, Structural, Clone, Copy, Debug)]
pub enum HolderAction {
    /// Set the new root directory's permissions fully open.
    OpenRootPermissions,
    /// Unshare the user, PID and network namespaces.
    UnshareUserPidNet,
    /// Write the readiness token on the outer channel.
    SendOuterToken,
    /// Block reading the outer channel for the identity-map acknowledgment.
    AwaitOuterAck,
    /// Create the inner channel pair and fork the Init Process.
    ForkInit,
    /// Close the inner send end that this process does not own.
    CloseInnerSend,
    /// Block reading the inner channel for the Init Process's readiness.
    AwaitInnerReady,
    /// Forward the full-environment acknowledgment on the outer channel.
    SendOuterReadyAck,
    /// Block in wait on the Init Process.
    AwaitChildExit,
    /// Write the terminal acknowledgment on the outer channel.
    SendOuterFinalAck,
    /// Nothing remains.
    Halt,
}

/// What the driver reports back to the machine.
#[derive(PartialEq, Eq, Structural, Clone, Copy, Debug)]
pub enum HolderEvent {
    /// The pending local action completed.
    Completed,
    /// The identity-map acknowledgment arrived on the outer channel.
    OuterAckArrived,
    /// The Init Process's readiness token arrived on the inner channel.
    InnerReadyArrived,
    /// The supervised Init Process exited with this status.
    ChildExited(ChildStatus),
}

/// The action pending in each state.
pub open spec fn holder_action(s: HolderState) -> HolderAction {
    match s {
        HolderState::Start => HolderAction::OpenRootPermissions,
        HolderState::PermsOpened => HolderAction::UnshareUserPidNet,
        HolderState::Unshared => HolderAction::SendOuterToken,
        HolderState::ReadyAnnounced => HolderAction::AwaitOuterAck,
        HolderState::IdentityMapped => HolderAction::ForkInit,
        HolderState::InitForked => HolderAction::CloseInnerSend,
        HolderState::InnerSendClosed => HolderAction::AwaitInnerReady,
        HolderState::InitReady => HolderAction::SendOuterReadyAck,
        HolderState::EnvAnnounced => HolderAction::AwaitChildExit,
        HolderState::ChildReaped(_) => HolderAction::SendOuterFinalAck,
        HolderState::Done(_) => HolderAction::Halt,
    }
}

/// The transition relation: an event that does not answer the pending action
/// leaves the machine where it stands (it stays blocked).
pub open spec fn holder_step_spec(s: HolderState, e: HolderEvent) -> HolderState {
    match (s, e) {
        (HolderState::Start, HolderEvent::Completed) => HolderState::PermsOpened,
        (HolderState::PermsOpened, HolderEvent::Completed) => HolderState::Unshared,
        (HolderState::Unshared, HolderEvent::Completed) => HolderState::ReadyAnnounced,
        (HolderState::ReadyAnnounced, HolderEvent::OuterAckArrived) => HolderState::IdentityMapped,
        (HolderState::IdentityMapped, HolderEvent::Completed) => HolderState::InitForked,
        (HolderState::InitForked, HolderEvent::Completed) => HolderState::InnerSendClosed,
        (HolderState::InnerSendClosed, HolderEvent::InnerReadyArrived) => HolderState::InitReady,
        (HolderState::InitReady, HolderEvent::Completed) => HolderState::EnvAnnounced,
        (HolderState::EnvAnnounced, HolderEvent::ChildExited(st)) => HolderState::ChildReaped(st),
        (HolderState::ChildReaped(st), HolderEvent::Completed) => HolderState::Done(st),
        (other, _) => other,
    }
}

/// Position of a state in protocol order.
pub open spec fn stage(s: HolderState) -> int {
    match s {
        HolderState::Start => 0,
        HolderState::PermsOpened => 1,
        HolderState::Unshared => 2,
        HolderState::ReadyAnnounced => 3,
        HolderState::IdentityMapped => 4,
        HolderState::InitForked => 5,
        HolderState::InnerSendClosed => 6,
        HolderState::InitReady => 7,
        HolderState::EnvAnnounced => 8,
        HolderState::ChildReaped(_) => 9,
        HolderState::Done(_) => 10,
    }
}

/// The state after feeding `events` to the machine from `s`, in order.
pub open spec fn holder_run(s: HolderState, events: Seq<HolderEvent>) -> HolderState
    decreases events.len(),
{
    if events.len() == 0 {
        s
    } else {
        holder_run(holder_step_spec(s, events[0]), events.skip(1))
    }
}

/// The action pending in the Holder's state.
pub fn holder_next_action(s: &HolderState) -> (a: HolderAction)
    ensures
        a == holder_action(*s),
{
    match s {
        HolderState::Start => HolderAction::OpenRootPermissions,
        HolderState::PermsOpened => HolderAction::UnshareUserPidNet,
        HolderState::Unshared => HolderAction::SendOuterToken,
        HolderState::ReadyAnnounced => HolderAction::AwaitOuterAck,
        HolderState::IdentityMapped => HolderAction::ForkInit,
        HolderState::InitForked => HolderAction::CloseInnerSend,
        HolderState::InnerSendClosed => HolderAction::AwaitInnerReady,
        HolderState::InitReady => HolderAction::SendOuterReadyAck,
        HolderState::EnvAnnounced => HolderAction::AwaitChildExit,
        HolderState::ChildReaped(_) => HolderAction::SendOuterFinalAck,
        HolderState::Done(_) => HolderAction::Halt,
    }
}

/// Advances the Holder by one observed event.
pub fn holder_step(s: HolderState, e: HolderEvent) -> (r: HolderState)
    ensures
        r == holder_step_spec(s, e),
{
    match (s, e) {
        (HolderState::Start, HolderEvent::Completed) => HolderState::PermsOpened,
        (HolderState::PermsOpened, HolderEvent::Completed) => HolderState::Unshared,
        (HolderState::Unshared, HolderEvent::Completed) => HolderState::ReadyAnnounced,
        (HolderState::ReadyAnnounced, HolderEvent::OuterAckArrived) => HolderState::IdentityMapped,
        (HolderState::IdentityMapped, HolderEvent::Completed) => HolderState::InitForked,
        (HolderState::InitForked, HolderEvent::Completed) => HolderState::InnerSendClosed,
        (HolderState::InnerSendClosed, HolderEvent::InnerReadyArrived) => HolderState::InitReady,
        (HolderState::InitReady, HolderEvent::Completed) => HolderState::EnvAnnounced,
        (HolderState::EnvAnnounced, HolderEvent::ChildExited(st)) => HolderState::ChildReaped(st),
        (HolderState::ChildReaped(st), HolderEvent::Completed) => HolderState::Done(st),
        (other, _) => other,
    }
}

/// Law: the machine is one-way; no event moves it backwards in protocol
/// order.
pub proof fn lemma_holder_one_way(s: HolderState, e: HolderEvent)
    ensures
        stage(holder_step_spec(s, e)) >= stage(s),
{
}

/// Law: the Holder leaves its first outer-channel wait only on the
/// Orchestrator's identity-map acknowledgment; any other event leaves it
/// blocked there, and the acknowledgment alone admits it to the mapped state.
pub proof fn lemma_first_barrier(e: HolderEvent)
    ensures
        e != HolderEvent::OuterAckArrived ==> holder_step_spec(HolderState::ReadyAnnounced, e)
            == HolderState::ReadyAnnounced,
        holder_step_spec(HolderState::ReadyAnnounced, HolderEvent::OuterAckArrived)
            == HolderState::IdentityMapped,
{
}

proof fn lemma_no_ack_bounded(s: HolderState, events: Seq<HolderEvent>)
    requires
        stage(s) <= stage(HolderState::ReadyAnnounced),
        forall|i: int| 0 <= i < events.len() ==> events[i] != HolderEvent::OuterAckArrived,
    ensures
        stage(holder_run(s, events)) <= stage(HolderState::ReadyAnnounced),
    decreases events.len(),
{
    if events.len() > 0 {
        let s1 = holder_step_spec(s, events[0]);
        assert(stage(s1) <= stage(HolderState::ReadyAnnounced));
        assert(forall|i: int|
            0 <= i < events.skip(1).len() ==> events.skip(1)[i] != HolderEvent::OuterAckArrived);
        lemma_no_ack_bounded(s1, events.skip(1));
    }
}

/// Law: if the identity-map acknowledgment never arrives, the Holder never
/// advances past its first outer-channel wait, whatever other events occur:
/// at every point of the run it has forked no Init Process and assumed no
/// mapped identity.
pub proof fn lemma_no_ack_no_progress(events: Seq<HolderEvent>)
    requires
        forall|i: int| 0 <= i < events.len() ==> events[i] != HolderEvent::OuterAckArrived,
    ensures
        forall|k: int|
            0 <= k <= events.len() ==> stage(#[trigger] holder_run(HolderState::Start,
                events.take(k))) <= stage(HolderState::ReadyAnnounced),
        forall|k: int|
            0 <= k <= events.len() ==> holder_action(#[trigger] holder_run(HolderState::Start,
                events.take(k))) != HolderAction::ForkInit,
{
    assert forall|k: int| 0 <= k <= events.len() implies stage(
        #[trigger] holder_run(HolderState::Start, events.take(k))) <= stage(
        HolderState::ReadyAnnounced) by {
        assert(forall|i: int|
            0 <= i < events.take(k).len() ==> events.take(k)[i] != HolderEvent::OuterAckArrived);
        lemma_no_ack_bounded(HolderState::Start, events.take(k));
    }
}

/// Law: exit-status propagation. When the supervised Init Process's exit is
/// observed, the Holder records exactly that status, still owes the terminal
/// acknowledgment, and completes carrying the same status once it is sent.
pub proof fn lemma_exit_status_propagation(st: ChildStatus)
    ensures
        holder_step_spec(HolderState::EnvAnnounced, HolderEvent::ChildExited(st))
            == HolderState::ChildReaped(st),
        holder_action(HolderState::ChildReaped(st)) == HolderAction::SendOuterFinalAck,
        holder_step_spec(HolderState::ChildReaped(st), HolderEvent::Completed)
            == HolderState::Done(st),
{
}

/// The events of a complete launch in protocol order: local completions, the
/// Orchestrator's acknowledgment, the Init Process's readiness, and its exit
/// with status `st`.
pub open spec fn launch_events(st: ChildStatus) -> Seq<HolderEvent> {
    seq![
        HolderEvent::Completed,
        HolderEvent::Completed,
        HolderEvent::Completed,
        HolderEvent::OuterAckArrived,
        HolderEvent::Completed,
        HolderEvent::Completed,
        HolderEvent::InnerReadyArrived,
        HolderEvent::Completed,
        HolderEvent::ChildExited(st),
        HolderEvent::Completed,
    ]
}

/// Law: a full launch run drives the Holder from the start to completion, and
/// what it completes with is exactly the status the supervised Init Process
/// exited with.
pub proof fn lemma_launch_run(st: ChildStatus)
    ensures
        holder_run(HolderState::Start, launch_events(st)) == HolderState::Done(st),
{
    reveal_with_fuel(holder_run, 11);
    let evs = launch_events(st);
    assert(evs.skip(1).skip(1) =~= evs.skip(2));
    assert(evs.skip(2).skip(1) =~= evs.skip(3));
    assert(evs.skip(3).skip(1) =~= evs.skip(4));
    assert(evs.skip(4).skip(1) =~= evs.skip(5));
    assert(evs.skip(5).skip(1) =~= evs.skip(6));
    assert(evs.skip(6).skip(1) =~= evs.skip(7));
    assert(evs.skip(7).skip(1) =~= evs.skip(8));
    assert(evs.skip(8).skip(1) =~= evs.skip(9));
    assert(evs.skip(9).skip(1) =~= evs.skip(10));
    assert(evs.skip(10) =~= Seq::<HolderEvent>::empty());
}

/// States of the Orchestrator during one launch, in protocol order.
#[derive(PartialEq, Eq, Structural, Clone, Copy, Debug)]
pub enum OrchestratorState {
    /// Blocked on the outer channel for the Holder's readiness token.
    AwaitingReady,
    /// The Holder announced its fresh namespaces; its identity map is still
    /// missing.
    ReadyObserved,
    /// The identity map of the Holder's PID is installed.
    MapInstalled,
    /// The acknowledgment is written; the Holder may now assume its mapped
    /// identity.
    AckSent,
    /// The full-environment acknowledgment arrived: the Init Process execd.
    EnvReady,
    /// The terminal acknowledgment arrived: supervision finished.
    LaunchComplete,
}

/// What the Orchestrator does next in each of its states.
#[derive(PartialEq, Eq, Structural, Clone, Copy, Debug)]
pub enum OrchestratorAction {
    /// Block reading the outer channel for the readiness token.
    AwaitHolderReady,
    /// Perform the identity-map writes against the Holder's PID.
    InstallIdentityMap,
    /// Write the acknowledgment token on the outer channel.
    SendOuterAck,
    /// Block reading the outer channel for the full-environment token.
    AwaitEnvReady,
    /// Block reading the outer channel for the terminal token.
    AwaitFinalAck,
    /// Nothing remains of this launch.
    Halt,
}

/// What the Orchestrator's driver reports back.
#[derive(PartialEq, Eq, Structural, Clone, Copy, Debug)]
pub enum OrchestratorEvent {
    /// The pending local action completed.
    Completed,
    /// The Holder's readiness token arrived.
    HolderReadyArrived,
    /// The full-environment token arrived.
    EnvReadyArrived,
    /// The terminal token arrived.
    FinalAckArrived,
}

/// The action pending in each Orchestrator state.
pub open spec fn orchestrator_action(s: OrchestratorState) -> OrchestratorAction {
    match s {
        OrchestratorState::AwaitingReady => OrchestratorAction::AwaitHolderReady,
        OrchestratorState::ReadyObserved => OrchestratorAction::InstallIdentityMap,
        OrchestratorState::MapInstalled => OrchestratorAction::SendOuterAck,
        OrchestratorState::AckSent => OrchestratorAction::AwaitEnvReady,
        OrchestratorState::EnvReady => OrchestratorAction::AwaitFinalAck,
        OrchestratorState::LaunchComplete => OrchestratorAction::Halt,
    }
}

/// The Orchestrator's transition relation; an event that does not answer the
/// pending action changes nothing.
pub open spec fn orchestrator_step_spec(s: OrchestratorState, e: OrchestratorEvent)
    -> OrchestratorState {
    match (s, e) {
        (OrchestratorState::AwaitingReady, OrchestratorEvent::HolderReadyArrived)
            => OrchestratorState::ReadyObserved,
        (OrchestratorState::ReadyObserved, OrchestratorEvent::Completed)
            => OrchestratorState::MapInstalled,
        (OrchestratorState::MapInstalled, OrchestratorEvent::Completed)
            => OrchestratorState::AckSent,
        (OrchestratorState::AckSent, OrchestratorEvent::EnvReadyArrived)
            => OrchestratorState::EnvReady,
        (OrchestratorState::EnvReady, OrchestratorEvent::FinalAckArrived)
            => OrchestratorState::LaunchComplete,
        (other, _) => other,
    }
}

/// The action pending in the Orchestrator's state.
pub fn orchestrator_next_action(s: &OrchestratorState) -> (a: OrchestratorAction)
    ensures
        a == orchestrator_action(*s),
{
    match s {
        OrchestratorState::AwaitingReady => OrchestratorAction::AwaitHolderReady,
        OrchestratorState::ReadyObserved => OrchestratorAction::InstallIdentityMap,
        OrchestratorState::MapInstalled => OrchestratorAction::SendOuterAck,
        OrchestratorState::AckSent => OrchestratorAction::AwaitEnvReady,
        OrchestratorState::EnvReady => OrchestratorAction::AwaitFinalAck,
        OrchestratorState::LaunchComplete => OrchestratorAction::Halt,
    }
}

/// Advances the Orchestrator by one observed event.
pub fn orchestrator_step(s: OrchestratorState, e: OrchestratorEvent) -> (r: OrchestratorState)
    ensures
        r == orchestrator_step_spec(s, e),
{
    match (s, e) {
        (OrchestratorState::AwaitingReady, OrchestratorEvent::HolderReadyArrived)
            => OrchestratorState::ReadyObserved,
        (OrchestratorState::ReadyObserved, OrchestratorEvent::Completed)
            => OrchestratorState::MapInstalled,
        (OrchestratorState::MapInstalled, OrchestratorEvent::Completed)
            => OrchestratorState::AckSent,
        (OrchestratorState::AckSent, OrchestratorEvent::EnvReadyArrived)
            => OrchestratorState::EnvReady,
        (OrchestratorState::EnvReady, OrchestratorEvent::FinalAckArrived)
            => OrchestratorState::LaunchComplete,
        (other, _) => other,
    }
}

/// Law: the acknowledgment the Holder waits for is sent only once the
/// identity-map installation has completed. The only state whose pending
/// action is the acknowledgment is entered by completing the installation,
/// which in turn is pending only once the Holder's readiness was observed.
pub proof fn lemma_ack_follows_identity_map(s: OrchestratorState, e: OrchestratorEvent)
    ensures
        orchestrator_action(s) != OrchestratorAction::SendOuterAck || s
            == OrchestratorState::MapInstalled,
        orchestrator_step_spec(s, e) == OrchestratorState::MapInstalled ==> s
            == OrchestratorState::MapInstalled || (s == OrchestratorState::ReadyObserved && e
            == OrchestratorEvent::Completed),
        orchestrator_action(OrchestratorState::ReadyObserved)
            == OrchestratorAction::InstallIdentityMap,
{
}

/// The Init Process's fixed step order, from the moment the fork put it in
/// the new user/PID/net namespaces to the exec.
#[derive(PartialEq, Eq, Structural, Clone, Copy, Debug)]
pub enum InitStep {
    /// Close the inner receive end, owned by the Holder.
    CloseInnerRecv,
    /// Assume namespace-root group identity (gid 0, valid once mapped).
    AssumeRootGid,
    /// Assume namespace-root user identity (uid 0).
    AssumeRootUid,
    /// Unshare the mount and UTS namespaces.
    UnshareMountUts,
    /// Run the root-switch plan.
    SwitchRoot,
    /// Set the hostname to the isolation marker.
    SetIsolationHostname,
    /// Write the readiness token on the inner channel.
    SendInnerToken,
    /// Replace this process with the target command.
    ExecTarget,
}

/// The Init Process's step order: identity first (group before user, since
/// dropping user identity last keeps the right to change groups), then the
/// mount/UTS unshare, the root switch, the hostname, the readiness token, and
/// only then the exec.
pub open spec fn init_order() -> Seq<InitStep> {
    seq![
        InitStep::CloseInnerRecv,
        InitStep::AssumeRootGid,
        InitStep::AssumeRootUid,
        InitStep::UnshareMountUts,
        InitStep::SwitchRoot,
        InitStep::SetIsolationHostname,
        InitStep::SendInnerToken,
        InitStep::ExecTarget,
    ]
}

/// The Init Process's plan, exactly `init_order`.
pub fn init_plan() -> (r: Vec<InitStep>)
    ensures
        r@ == init_order(),
{
    let mut r: Vec<InitStep> = Vec::new();
    r.push(InitStep::CloseInnerRecv);
    r.push(InitStep::AssumeRootGid);
    r.push(InitStep::AssumeRootUid);
    r.push(InitStep::UnshareMountUts);
    r.push(InitStep::SwitchRoot);
    r.push(InitStep::SetIsolationHostname);
    r.push(InitStep::SendInnerToken);
    r.push(InitStep::ExecTarget);
    proof {
        assert(r@ =~= init_order());
    }
    r
}

/// The hostname the Init Process installs in its fresh UTS namespace.
pub fn isolation_hostname() -> (r: &'static str)
    ensures
        r@ == "isoproc"@,
{
    "isoproc"
}

/// The fixed two-byte barrier token. Its content carries no meaning beyond
/// arrival of the expected byte count.
pub fn barrier_token() -> (r: Vec<u8>)
    ensures
        r@ == seq!['O' as u8, 'K' as u8],
{
    let mut r: Vec<u8> = Vec::new();
    r.push('O' as u8);
    r.push('K' as u8);
    proof {
        assert(r@ =~= seq!['O' as u8, 'K' as u8]);
    }
    r
}

/// What the Init Process execs: an interactive shell with the configured
/// environment.
pub struct ExecImage {
    /// Program path inside the new root.
    pub program: String,
    /// Argument vector, program name first.
    pub argv: Vec<String>,
    /// Environment entries, one `name=value` per configured pair.
    pub env: Vec<String>,
}

/// Builds the image the Init Process replaces itself with: `/bin/sh` run
/// interactively, with exactly the configured environment.
pub fn exec_image(cfg: &IsolationConfig) -> (r: ExecImage)
    ensures
        r.program@ == "/bin/sh"@,
        r.argv@.len() == 2,
        r.argv@[0]@ == "sh"@,
        r.argv@[1]@ == "-i"@,
        r.env@.len() == cfg.environment@.len(),
        forall|k: int|
            0 <= k < r.env@.len() ==> r.env@[k]@ == cfg.environment@[k].0@ + "="@
                + cfg.environment@[k].1@,
{
    let mut argv: Vec<String> = Vec::new();
    argv.push("sh".to_owned());
    argv.push("-i".to_owned());
    ExecImage { program: "/bin/sh".to_owned(), argv, env: cfg.env_entries() }
}

} // verus!

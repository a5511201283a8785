//! The device session behind a launch or attach request, as a state
//! machine: the caller performs each `SessionAction` and hands back what
//! came of it as a `SessionEvent`.
//!
//! The order is: the mount queue is consulted; a device whose developer
//! disk image is not mounted gets a mount queued instead of a session;
//! otherwise the keep-alive is started, the device is registered with the
//! multiplexer, its tunnel is awaited, the services are listed, the app is
//! launched (for a launch), the debug proxy attaches and detaches, and the
//! keep-alive is stopped.

use vstd::prelude::*;
use crate::debug_command::{attach_command, attach_command_text, detach_command, detach_command_text};
use crate::mount::MountQueueInfo;
use crate::tunneld::{tunnel_wait_next, TunnelWait, TunnelWaitStep};

verus! {

/// Name under which the device advertises its process-control service.
pub const PROCESS_CONTROL_SERVICE: &'static str = "com.apple.instruments.dtservicehub";

/// Name under which the device advertises its debug proxy.
pub const DEBUG_PROXY_SERVICE: &'static str = "com.apple.internal.dt.remote.debugproxy";

/// What the session is for.
#[derive(Debug)]
pub enum SessionGoal {
    /// Launch the app with this bundle id, then enable JIT for it.
    Launch(String),
    /// Enable JIT for the process with this id, already running.
    Attach(u64),
}

/// The protocol step at which a device exchange failed.
#[derive(PartialEq, Eq, Structural, Clone, Copy, Debug)]
pub enum ProtocolStep {
    ServiceDiscovery,
    ProcessLaunch,
    DebugAttach,
}

/// A service that a session needs from the developer disk image.
#[derive(PartialEq, Eq, Structural, Clone, Copy, Debug)]
pub enum RequiredService {
    ProcessControl,
    DebugProxy,
}

/// Why a session ended without doing its work.
#[derive(Debug)]
pub enum SessionError {
    /// The request's address belongs to no registered device; the reason.
    Identity(String),
    /// The device's pairing record could not be read, for this reason.
    Pairing(String),
    /// The queue store could not be read or written.
    QueueBackend,
    /// The mount worker failed with this message.
    MountFailed(String),
    /// The keep-alive could not be started, for this reason.
    Heartbeat(String),
    /// The multiplexer did not accept the device.
    Registration,
    /// The device's tunnel did not appear within the poll budget.
    TunnelTimeout,
    /// A device exchange failed at this step, for this reason.
    Protocol(ProtocolStep, String),
    /// This service, which lives on the developer disk image, is not advertised.
    NotMounted(RequiredService),
    /// An event came that the session was not waiting for.
    OutOfTurn,
}

/// How a session ended.
#[derive(Debug)]
pub enum SessionOutcome {
    /// The debugger attached and let go: JIT is enabled.
    Done,
    /// A mount for the device is pending, this many entries ahead of it.
    Queued(usize),
    /// The device's mount is under way.
    MountInProgress,
    /// The image was not mounted; a mount was queued with this ordinal.
    MountRequired(u64),
    Failed(SessionError),
}

/// A command for the debug proxy.
#[derive(PartialEq, Eq, Structural, Clone, Copy, Debug)]
pub enum DebugCommand {
    /// Attach to the process with this id.
    Attach(u64),
    /// Detach, leaving the process running.
    Detach,
}

impl DebugCommand {
    /// The command's text on the wire.
    pub fn text(&self) -> (r: String)
        ensures
            r@ == match *self {
                DebugCommand::Attach(pid) => attach_command_text(pid),
                DebugCommand::Detach => detach_command_text(),
            },
    {
        match *self {
            DebugCommand::Attach(pid) => attach_command(pid),
            DebugCommand::Detach => detach_command(),
        }
    }
}

/// What the caller does next.
#[derive(Debug)]
pub enum SessionAction {
    /// Look the device up in the mount queue.
    CheckMountQueue(String),
    /// Queue a mount for the device, requested from the address.
    EnqueueMount(String, String),
    /// Start the device's keep-alive and store its handle in the registry.
    StartHeartbeat(String, String),
    /// Announce the device at the address to the multiplexer.
    Register(String, String),
    /// After this many milliseconds, ask whether the device's tunnel is up.
    PollTunnel(String, u64),
    /// Open the tunnel and list the advertised services.
    ListServices,
    /// Launch the bundle through the process-control service at the port.
    Launch(u16, String),
    /// Lift the memory limit of the process; failure is harmless.
    RelaxMemoryLimit(u64),
    /// Send the command to the debug proxy at the port.
    SendCommand(u16, DebugCommand),
    /// Send `Kill` for the device to the keep-alive registry.
    StopHeartbeat(String),
    /// The session is over.
    Finish(SessionOutcome),
}

/// What came of the last action.
#[derive(Debug)]
pub enum SessionEvent {
    /// The request arrived.
    Begin,
    QueueChecked(MountQueueInfo),
    /// Whether the mount was queued, with its ordinal.
    MountEnqueued(Option<u64>),
    HeartbeatStarted(Result<(), String>),
    /// Whether the multiplexer answered with success.
    Registered(bool),
    /// Whether the device's tunnel was listed.
    TunnelPolled(bool),
    /// The advertised service names and ports.
    ServicesListed(Result<Vec<(String, u16)>, String>),
    /// The id of the launched process.
    Launched(Result<u64, String>),
    MemoryLimitRelaxed(bool),
    CommandSent(Result<(), String>),
    HeartbeatStopped,
}

/// Where the session is.
#[derive(Debug)]
pub enum Stage {
    Start,
    CheckingQueue,
    EnqueueingMount,
    StartingHeartbeat,
    Registering,
    AwaitingTunnel,
    ServiceDiscovery,
    ProcessLaunch,
    RelaxingMemoryLimit,
    DebugAttach,
    StoppingHeartbeat,
    Finished,
}

/// One session.
#[derive(Debug)]
pub struct LaunchSession {
    pub udid: String,
    /// The device's address.
    pub ip: String,
    pub goal: SessionGoal,
    /// Whether the developer disk image is known to be mounted.
    pub image_mounted: bool,
    /// How many detach commands follow the attach command.
    pub detach_count: usize,
    pub stage: Stage,
    pub tunnel: TunnelWait,
    /// Port of the debug proxy, once known.
    pub debug_port: u16,
    /// Id of the target process, once known.
    pub pid: u64,
    /// Detach commands sent so far.
    pub detaches_sent: usize,
}

/// The port advertised under `name`: the first entry of that name.
pub open spec fn port_of(table: Seq<(String, u16)>, name: Seq<char>) -> Option<u16>
    decreases table.len(),
{
    if table.len() == 0 {
        None
    } else if table[0].0@ == name {
        Some(table[0].1)
    } else {
        port_of(table.drop_first(), name)
    }
}

/// The port advertised under `name` in `table`, if any.
pub fn find_port(table: &Vec<(String, u16)>, name: &str) -> (r: Option<u16>)
    ensures
        r == port_of(table@, name@),
{
    let n = name.to_owned();
    let mut k: usize = 0;
    assert(table@.subrange(0, table@.len() as int) =~= table@);
    while k < table.len()
        invariant
            k <= table@.len(),
            n@ == name@,
            port_of(table@, name@) == port_of(table@.subrange(k as int, table@.len() as int), name@),
        decreases table@.len() - k,
    {
        let ghost rest = table@.subrange(k as int, table@.len() as int);
        assert(rest.drop_first() =~= table@.subrange(k + 1, table@.len() as int));
        if table[k].0 == n {
            return Some(table[k].1);
        }
        k = k + 1;
    }
    None
}

/// The session ends with `outcome`.
pub open spec fn finish(s: LaunchSession, outcome: SessionOutcome) -> (LaunchSession, SessionAction) {
    (LaunchSession { stage: Stage::Finished, ..s }, SessionAction::Finish(outcome))
}

/// The session after a step of the tunnel wait.
pub open spec fn after_tunnel_step(s: LaunchSession, w: TunnelWait, step: TunnelWaitStep) -> (
    LaunchSession,
    SessionAction,
) {
    match step {
        TunnelWaitStep::Poll(ms) => (
            LaunchSession { stage: Stage::AwaitingTunnel, tunnel: w, ..s },
            SessionAction::PollTunnel(s.udid, ms),
        ),
        TunnelWaitStep::Connected => (
            LaunchSession { stage: Stage::ServiceDiscovery, tunnel: w, ..s },
            SessionAction::ListServices,
        ),
        TunnelWaitStep::TimedOut => finish(
            LaunchSession { tunnel: w, ..s },
            SessionOutcome::Failed(SessionError::TunnelTimeout),
        ),
    }
}

/// The session once the services are listed.
pub open spec fn after_services(s: LaunchSession, table: Seq<(String, u16)>) -> (
    LaunchSession,
    SessionAction,
) {
    let pc = port_of(table, PROCESS_CONTROL_SERVICE@);
    let dp = port_of(table, DEBUG_PROXY_SERVICE@);
    let missing = |m: RequiredService| finish(s, SessionOutcome::Failed(SessionError::NotMounted(m)));
    match s.goal {
        SessionGoal::Launch(bundle) => match (pc, dp) {
            (None, _) => missing(RequiredService::ProcessControl),
            (Some(_), None) => missing(RequiredService::DebugProxy),
            (Some(pport), Some(dport)) => (
                LaunchSession { stage: Stage::ProcessLaunch, debug_port: dport, ..s },
                SessionAction::Launch(pport, bundle),
            ),
        },
        SessionGoal::Attach(pid) => match dp {
            None => missing(RequiredService::DebugProxy),
            Some(dport) => (
                LaunchSession { stage: Stage::DebugAttach, debug_port: dport, pid, detaches_sent: 0, ..s },
                SessionAction::SendCommand(dport, DebugCommand::Attach(pid)),
            ),
        },
    }
}

/// The session after `ev`, and the next action.
pub open spec fn session_next(s: LaunchSession, ev: SessionEvent) -> (LaunchSession, SessionAction) {
    match (s.stage, ev) {
        (Stage::Start, SessionEvent::Begin) => (
            LaunchSession { stage: Stage::CheckingQueue, ..s },
            SessionAction::CheckMountQueue(s.udid),
        ),
        (Stage::CheckingQueue, SessionEvent::QueueChecked(info)) => match info {
            MountQueueInfo::NotInQueue => if s.image_mounted {
                (
                    LaunchSession { stage: Stage::StartingHeartbeat, ..s },
                    SessionAction::StartHeartbeat(s.udid, s.ip),
                )
            } else {
                (
                    LaunchSession { stage: Stage::EnqueueingMount, ..s },
                    SessionAction::EnqueueMount(s.udid, s.ip),
                )
            },
            MountQueueInfo::Position(p) => finish(s, SessionOutcome::Queued(p)),
            MountQueueInfo::InProgress => finish(s, SessionOutcome::MountInProgress),
            MountQueueInfo::Error(m) => finish(s, SessionOutcome::Failed(SessionError::MountFailed(m))),
            MountQueueInfo::ServerError => finish(s, SessionOutcome::Failed(SessionError::QueueBackend)),
        },
        (Stage::EnqueueingMount, SessionEvent::MountEnqueued(r)) => match r {
            Some(o) => finish(s, SessionOutcome::MountRequired(o)),
            None => finish(s, SessionOutcome::Failed(SessionError::QueueBackend)),
        },
        (Stage::StartingHeartbeat, SessionEvent::HeartbeatStarted(r)) => match r {
            Ok(_) => (
                LaunchSession { stage: Stage::Registering, ..s },
                SessionAction::Register(s.udid, s.ip),
            ),
            Err(e) => finish(s, SessionOutcome::Failed(SessionError::Heartbeat(e))),
        },
        (Stage::Registering, SessionEvent::Registered(ok)) => if !ok {
            finish(s, SessionOutcome::Failed(SessionError::Registration))
        } else if s.tunnel.budget == 0 {
            finish(
                LaunchSession { tunnel: TunnelWait { polls: 0, budget: 0 }, ..s },
                SessionOutcome::Failed(SessionError::TunnelTimeout),
            )
        } else {
            (
                LaunchSession {
                    stage: Stage::AwaitingTunnel,
                    tunnel: TunnelWait { polls: 0, budget: s.tunnel.budget },
                    ..s
                },
                SessionAction::PollTunnel(s.udid, 0),
            )
        },
        (Stage::AwaitingTunnel, SessionEvent::TunnelPolled(found)) => {
            let (w, step) = tunnel_wait_next(s.tunnel, found);
            after_tunnel_step(s, w, step)
        },
        (Stage::ServiceDiscovery, SessionEvent::ServicesListed(r)) => match r {
            Ok(table) => after_services(s, table@),
            Err(e) => finish(
                s,
                SessionOutcome::Failed(SessionError::Protocol(ProtocolStep::ServiceDiscovery, e)),
            ),
        },
        (Stage::ProcessLaunch, SessionEvent::Launched(r)) => match r {
            Ok(pid) => (
                LaunchSession { stage: Stage::RelaxingMemoryLimit, pid, ..s },
                SessionAction::RelaxMemoryLimit(pid),
            ),
            Err(e) => finish(
                s,
                SessionOutcome::Failed(SessionError::Protocol(ProtocolStep::ProcessLaunch, e)),
            ),
        },
        (Stage::RelaxingMemoryLimit, SessionEvent::MemoryLimitRelaxed(_)) => (
            LaunchSession { stage: Stage::DebugAttach, detaches_sent: 0, ..s },
            SessionAction::SendCommand(s.debug_port, DebugCommand::Attach(s.pid)),
        ),
        (Stage::DebugAttach, SessionEvent::CommandSent(r)) => match r {
            Ok(_) => if s.detaches_sent < s.detach_count {
                (
                    LaunchSession { detaches_sent: (s.detaches_sent + 1) as usize, ..s },
                    SessionAction::SendCommand(s.debug_port, DebugCommand::Detach),
                )
            } else {
                (
                    LaunchSession { stage: Stage::StoppingHeartbeat, ..s },
                    SessionAction::StopHeartbeat(s.udid),
                )
            },
            Err(e) => finish(
                s,
                SessionOutcome::Failed(SessionError::Protocol(ProtocolStep::DebugAttach, e)),
            ),
        },
        (Stage::StoppingHeartbeat, SessionEvent::HeartbeatStopped) => finish(s, SessionOutcome::Done),
        _ => finish(s, SessionOutcome::Failed(SessionError::OutOfTurn)),
    }
}

/// The actions a session takes for a run of events.
pub open spec fn session_trace(s: LaunchSession, evs: Seq<SessionEvent>) -> Seq<SessionAction>
    decreases evs.len(),
{
    if evs.len() == 0 {
        seq![]
    } else {
        let (n, a) = session_next(s, evs[0]);
        seq![a] + session_trace(n, evs.drop_first())
    }
}

/// How many of `acts` stop the keep-alive.
pub open spec fn stop_count(acts: Seq<SessionAction>) -> nat
    decreases acts.len(),
{
    if acts.len() == 0 {
        0
    } else {
        stop_count(acts.drop_first()) + if acts[0] is StopHeartbeat {
            1nat
        } else {
            0nat
        }
    }
}

/// Whether one of `acts` ends the session with success.
pub open spec fn reports_done(acts: Seq<SessionAction>) -> bool
    decreases acts.len(),
{
    if acts.len() == 0 {
        false
    } else {
        acts[0] matches SessionAction::Finish(SessionOutcome::Done) || reports_done(acts.drop_first())
    }
}

/// The keep-alive is stopped only once the attach command and every detach
/// command have been acknowledged.
pub proof fn lemma_stop_only_after_attach(s: LaunchSession, ev: SessionEvent)
    ensures
        session_next(s, ev).1 is StopHeartbeat ==> {
            &&& s.stage is DebugAttach
            &&& ev matches SessionEvent::CommandSent(Ok(_))
            &&& s.detaches_sent >= s.detach_count
        },
{
}

proof fn lemma_step_shape(s: LaunchSession, ev: SessionEvent)
    ensures
        ({
            let (n, a) = session_next(s, ev);
            &&& a is StopHeartbeat <==> n.stage is StoppingHeartbeat
            &&& a is StopHeartbeat ==> !(s.stage is StoppingHeartbeat) && !(s.stage is Finished)
            &&& a matches SessionAction::Finish(SessionOutcome::Done) ==> s.stage is StoppingHeartbeat
            &&& (s.stage is StoppingHeartbeat || s.stage is Finished) ==> n.stage is Finished
            &&& s.stage is Finished ==> !(a matches SessionAction::Finish(SessionOutcome::Done))
        }),
{
}

proof fn lemma_trace_stops(s: LaunchSession, evs: Seq<SessionEvent>)
    ensures
        ({
            let t = session_trace(s, evs);
            &&& s.stage is Finished ==> stop_count(t) == 0 && !reports_done(t)
            &&& s.stage is StoppingHeartbeat ==> stop_count(t) == 0
            &&& stop_count(t) <= 1
            &&& reports_done(t) && !(s.stage is StoppingHeartbeat) ==> stop_count(t) == 1
        }),
    decreases evs.len(),
{
    if evs.len() > 0 {
        let (n, a) = session_next(s, evs[0]);
        let t = session_trace(s, evs);
        let rest = session_trace(n, evs.drop_first());
        lemma_step_shape(s, evs[0]);
        lemma_trace_stops(n, evs.drop_first());
        assert(t[0] == a);
        assert(t.drop_first() =~= rest);
    }
}

/// In any run of a session, the keep-alive is stopped at most once, and a
/// run that reports success has stopped it exactly once.
pub proof fn lemma_heartbeat_stopped_once(s: LaunchSession, evs: Seq<SessionEvent>)
    requires
        s.stage is Start,
    ensures
        stop_count(session_trace(s, evs)) <= 1,
        reports_done(session_trace(s, evs)) ==> stop_count(session_trace(s, evs)) == 1,
{
    lemma_trace_stops(s, evs);
}

/// Whether none of `acts` starts or stops the keep-alive.
pub open spec fn leaves_heartbeat_alone(acts: Seq<SessionAction>) -> bool {
    forall|i: int|
        0 <= i < acts.len() ==> !(#[trigger] acts[i] is StartHeartbeat) && !(acts[i] is StopHeartbeat)
}

proof fn lemma_unmounted_trace(s: LaunchSession, evs: Seq<SessionEvent>)
    requires
        !s.image_mounted,
        s.stage is Start || s.stage is CheckingQueue || s.stage is EnqueueingMount
            || s.stage is Finished,
    ensures
        leaves_heartbeat_alone(session_trace(s, evs)),
    decreases evs.len(),
{
    if evs.len() > 0 {
        let (n, a) = session_next(s, evs[0]);
        lemma_unmounted_trace(n, evs.drop_first());
        let t = session_trace(s, evs);
        assert forall|i: int| 0 <= i < t.len() implies !(#[trigger] t[i] is StartHeartbeat) && !(
        t[i] is StopHeartbeat) by {
            if i > 0 {
                assert(t[i] == session_trace(n, evs.drop_first())[i - 1]);
            }
        }
    }
}

/// A session for a device whose developer disk image is not known to be
/// mounted queues a mount at most; whatever happens, it never starts or
/// stops the device's keep-alive.
pub proof fn lemma_unmounted_leaves_heartbeat_alone(s: LaunchSession, evs: Seq<SessionEvent>)
    requires
        s.stage is Start,
        !s.image_mounted,
    ensures
        leaves_heartbeat_alone(session_trace(s, evs)),
{
    lemma_unmounted_trace(s, evs);
}

/// `n` acknowledged debug commands.
pub open spec fn acknowledged(n: nat) -> Seq<SessionEvent> {
    Seq::new(n, |i: int| SessionEvent::CommandSent(Ok::<(), String>(())))
}

/// A launch for a device whose image is not known to be mounted, and which
/// has no mount queued: the session looks at the mount queue, queues a
/// mount for the device at its address, and ends with the mount required.
pub proof fn lemma_unmounted_launch_queues_mount(s: LaunchSession, o: u64)
    requires
        s.stage is Start,
        !s.image_mounted,
    ensures
        session_trace(
            s,
            seq![
                SessionEvent::Begin,
                SessionEvent::QueueChecked(MountQueueInfo::NotInQueue),
                SessionEvent::MountEnqueued(Some(o)),
            ],
        ) == seq![
            SessionAction::CheckMountQueue(s.udid),
            SessionAction::EnqueueMount(s.udid, s.ip),
            SessionAction::Finish(SessionOutcome::MountRequired(o)),
        ],
{
    let e0 = seq![
        SessionEvent::Begin,
        SessionEvent::QueueChecked(MountQueueInfo::NotInQueue),
        SessionEvent::MountEnqueued(Some(o)),
    ];
    let e1 = e0.drop_first();
    let e2 = e1.drop_first();
    let e3 = e2.drop_first();
    let s1 = session_next(s, e0[0]).0;
    let s2 = session_next(s1, e1[0]).0;
    let s3 = session_next(s2, e2[0]).0;
    assert(e3.len() == 0);
    assert(session_trace(s3, e3) == Seq::<SessionAction>::empty());
    assert(session_trace(s2, e2) =~= seq![SessionAction::Finish(SessionOutcome::MountRequired(o))]);
    assert(session_trace(s1, e1) =~= seq![
        SessionAction::EnqueueMount(s.udid, s.ip),
        SessionAction::Finish(SessionOutcome::MountRequired(o)),
    ]);
    assert(session_trace(s, e0) =~= seq![
        SessionAction::CheckMountQueue(s.udid),
        SessionAction::EnqueueMount(s.udid, s.ip),
        SessionAction::Finish(SessionOutcome::MountRequired(o)),
    ]);
}

/// From the attach command on, acknowledged commands lead to the remaining
/// detach commands, then to stopping the keep-alive, then to success.
proof fn lemma_detach_run(s: LaunchSession)
    requires
        s.stage is DebugAttach,
        s.detaches_sent <= s.detach_count,
    ensures
        session_trace(
            s,
            acknowledged((s.detach_count - s.detaches_sent + 1) as nat).push(
                SessionEvent::HeartbeatStopped,
            ),
        ) == Seq::new(
            (s.detach_count - s.detaches_sent) as nat,
            |i: int| SessionAction::SendCommand(s.debug_port, DebugCommand::Detach),
        ) + seq![SessionAction::StopHeartbeat(s.udid), SessionAction::Finish(SessionOutcome::Done)],
    decreases s.detach_count - s.detaches_sent,
{
    let n = (s.detach_count - s.detaches_sent + 1) as nat;
    let evs = acknowledged(n).push(SessionEvent::HeartbeatStopped);
    let (s1, a) = session_next(s, evs[0]);
    let rest = evs.drop_first();
    if s.detaches_sent < s.detach_count {
        assert(rest =~= acknowledged((n - 1) as nat).push(SessionEvent::HeartbeatStopped));
        lemma_detach_run(s1);
        assert(session_trace(s, evs) =~= Seq::new(
            (s.detach_count - s.detaches_sent) as nat,
            |i: int| SessionAction::SendCommand(s.debug_port, DebugCommand::Detach),
        ) + seq![SessionAction::StopHeartbeat(s.udid), SessionAction::Finish(SessionOutcome::Done)]);
    } else {
        assert(rest =~= seq![SessionEvent::HeartbeatStopped]);
        let s2 = session_next(s1, rest[0]).0;
        assert(session_trace(s2, rest.drop_first()) == Seq::<SessionAction>::empty());
        assert(session_trace(s1, rest) =~= seq![SessionAction::Finish(SessionOutcome::Done)]);
        assert(session_trace(s, evs) =~= Seq::new(
            0,
            |i: int| SessionAction::SendCommand(s.debug_port, DebugCommand::Detach),
        ) + seq![SessionAction::StopHeartbeat(s.udid), SessionAction::Finish(SessionOutcome::Done)]);
    }
}

/// The events of a launch in which every step succeeds.
pub open spec fn successful_launch_events(
    table: Vec<(String, u16)>,
    pid: u64,
    relaxed: bool,
    detach_count: usize,
) -> Seq<SessionEvent> {
    seq![
        SessionEvent::Begin,
        SessionEvent::QueueChecked(MountQueueInfo::NotInQueue),
        SessionEvent::HeartbeatStarted(Ok::<(), String>(())),
        SessionEvent::Registered(true),
        SessionEvent::TunnelPolled(true),
        SessionEvent::ServicesListed(Ok::<Vec<(String, u16)>, String>(table)),
        SessionEvent::Launched(Ok::<u64, String>(pid)),
        SessionEvent::MemoryLimitRelaxed(relaxed),
    ] + acknowledged((detach_count + 1) as nat).push(SessionEvent::HeartbeatStopped)
}

/// A launch of a mounted device in which every step succeeds: the app is
/// launched once through the process-control service, the debug proxy gets
/// the attach command for its process and then the configured number of
/// detach commands, the keep-alive is stopped once, and the session ends
/// with success. A failed memory-limit change does not matter.
pub proof fn lemma_mounted_launch_succeeds(
    s: LaunchSession,
    table: Vec<(String, u16)>,
    pport: u16,
    dport: u16,
    pid: u64,
    relaxed: bool,
)
    requires
        s.stage is Start,
        s.image_mounted,
        s.goal is Launch,
        s.tunnel.budget > 0,
        port_of(table@, PROCESS_CONTROL_SERVICE@) == Some(pport),
        port_of(table@, DEBUG_PROXY_SERVICE@) == Some(dport),
    ensures
        session_trace(s, successful_launch_events(table, pid, relaxed, s.detach_count)) == seq![
            SessionAction::CheckMountQueue(s.udid),
            SessionAction::StartHeartbeat(s.udid, s.ip),
            SessionAction::Register(s.udid, s.ip),
            SessionAction::PollTunnel(s.udid, 0),
            SessionAction::ListServices,
            SessionAction::Launch(pport, s.goal->Launch_0),
            SessionAction::RelaxMemoryLimit(pid),
            SessionAction::SendCommand(dport, DebugCommand::Attach(pid)),
        ] + Seq::new(
            s.detach_count as nat,
            |i: int| SessionAction::SendCommand(dport, DebugCommand::Detach),
        ) + seq![SessionAction::StopHeartbeat(s.udid), SessionAction::Finish(SessionOutcome::Done)],
{
    let e0 = successful_launch_events(table, pid, relaxed, s.detach_count);
    let tail = acknowledged((s.detach_count + 1) as nat).push(SessionEvent::HeartbeatStopped);
    let e1 = e0.drop_first();
    let e2 = e1.drop_first();
    let e3 = e2.drop_first();
    let e4 = e3.drop_first();
    let e5 = e4.drop_first();
    let e6 = e5.drop_first();
    let e7 = e6.drop_first();
    let e8 = e7.drop_first();
    assert(e8 =~= tail);
    let s1 = session_next(s, e0[0]).0;
    let s2 = session_next(s1, e1[0]).0;
    let s3 = session_next(s2, e2[0]).0;
    let s4 = session_next(s3, e3[0]).0;
    let s5 = session_next(s4, e4[0]).0;
    let s6 = session_next(s5, e5[0]).0;
    let s7 = session_next(s6, e6[0]).0;
    let s8 = session_next(s7, e7[0]).0;
    assert(s8.stage is DebugAttach && s8.detaches_sent == 0 && s8.debug_port == dport);
    lemma_detach_run(s8);
    let rest = session_trace(s8, e8);
    assert(session_trace(s7, e7) =~= seq![SessionAction::SendCommand(dport, DebugCommand::Attach(pid))] + rest);
    assert(session_trace(s6, e6) =~= seq![SessionAction::RelaxMemoryLimit(pid)] + session_trace(s7, e7));
    assert(session_trace(s5, e5) =~= seq![SessionAction::Launch(pport, s.goal->Launch_0)] + session_trace(s6, e6));
    assert(session_trace(s4, e4) =~= seq![SessionAction::ListServices] + session_trace(s5, e5));
    assert(session_trace(s3, e3) =~= seq![SessionAction::PollTunnel(s.udid, 0)] + session_trace(s4, e4));
    assert(session_trace(s2, e2) =~= seq![SessionAction::Register(s.udid, s.ip)] + session_trace(s3, e3));
    assert(session_trace(s1, e1) =~= seq![SessionAction::StartHeartbeat(s.udid, s.ip)] + session_trace(s2, e2));
    assert(session_trace(s, e0) =~= seq![SessionAction::CheckMountQueue(s.udid)] + session_trace(s1, e1));
    assert(session_trace(s, e0) =~= seq![
        SessionAction::CheckMountQueue(s.udid),
        SessionAction::StartHeartbeat(s.udid, s.ip),
        SessionAction::Register(s.udid, s.ip),
        SessionAction::PollTunnel(s.udid, 0),
        SessionAction::ListServices,
        SessionAction::Launch(pport, s.goal->Launch_0),
        SessionAction::RelaxMemoryLimit(pid),
        SessionAction::SendCommand(dport, DebugCommand::Attach(pid)),
    ] + Seq::new(
        s.detach_count as nat,
        |i: int| SessionAction::SendCommand(dport, DebugCommand::Detach),
    ) + seq![SessionAction::StopHeartbeat(s.udid), SessionAction::Finish(SessionOutcome::Done)]);
}

impl LaunchSession {
    /// A session that has not begun; `tunnel_polls` is the poll budget of
    /// the tunnel wait.
    pub fn new(
        udid: String,
        ip: String,
        goal: SessionGoal,
        image_mounted: bool,
        detach_count: usize,
        tunnel_polls: u32,
    ) -> (r: Self)
        ensures
            r == (LaunchSession {
                udid,
                ip,
                goal,
                image_mounted,
                detach_count,
                stage: Stage::Start,
                tunnel: TunnelWait { polls: 0, budget: tunnel_polls },
                debug_port: 0,
                pid: 0,
                detaches_sent: 0,
            }),
    {
        LaunchSession {
            udid,
            ip,
            goal,
            image_mounted,
            detach_count,
            stage: Stage::Start,
            tunnel: TunnelWait { polls: 0, budget: tunnel_polls },
            debug_port: 0,
            pid: 0,
            detaches_sent: 0,
        }
    }

    fn finish(&mut self, outcome: SessionOutcome) -> (r: SessionAction)
        ensures
            (*final(self), r) == finish(*old(self), outcome),
    {
        self.stage = Stage::Finished;
        SessionAction::Finish(outcome)
    }

    /// Takes what came of the last action and returns the next one.
    pub fn on_event(&mut self, ev: SessionEvent) -> (r: SessionAction)
        ensures
            (*final(self), r) == session_next(*old(self), ev),
    {
        match (&self.stage, ev) {
            (Stage::Start, SessionEvent::Begin) => {
                self.stage = Stage::CheckingQueue;
                SessionAction::CheckMountQueue(self.udid.clone())
            },
            (Stage::CheckingQueue, SessionEvent::QueueChecked(info)) => match info {
                MountQueueInfo::NotInQueue => if self.image_mounted {
                    self.stage = Stage::StartingHeartbeat;
                    SessionAction::StartHeartbeat(self.udid.clone(), self.ip.clone())
                } else {
                    self.stage = Stage::EnqueueingMount;
                    SessionAction::EnqueueMount(self.udid.clone(), self.ip.clone())
                },
                MountQueueInfo::Position(p) => self.finish(SessionOutcome::Queued(p)),
                MountQueueInfo::InProgress => self.finish(SessionOutcome::MountInProgress),
                MountQueueInfo::Error(m) => self.finish(
                    SessionOutcome::Failed(SessionError::MountFailed(m)),
                ),
                MountQueueInfo::ServerError => self.finish(
                    SessionOutcome::Failed(SessionError::QueueBackend),
                ),
            },
            (Stage::EnqueueingMount, SessionEvent::MountEnqueued(r)) => match r {
                Some(o) => self.finish(SessionOutcome::MountRequired(o)),
                None => self.finish(SessionOutcome::Failed(SessionError::QueueBackend)),
            },
            (Stage::StartingHeartbeat, SessionEvent::HeartbeatStarted(r)) => match r {
                Ok(_) => {
                    self.stage = Stage::Registering;
                    SessionAction::Register(self.udid.clone(), self.ip.clone())
                },
                Err(e) => self.finish(SessionOutcome::Failed(SessionError::Heartbeat(e))),
            },
            (Stage::Registering, SessionEvent::Registered(ok)) => {
                if !ok {
                    self.finish(SessionOutcome::Failed(SessionError::Registration))
                } else {
                    let (w, step) = TunnelWait::new(self.tunnel.budget);
                    self.tunnel = w;
                    match step {
                        TunnelWaitStep::Poll(ms) => {
                            self.stage = Stage::AwaitingTunnel;
                            SessionAction::PollTunnel(self.udid.clone(), ms)
                        },
                        _ => self.finish(SessionOutcome::Failed(SessionError::TunnelTimeout)),
                    }
                }
            },
            (Stage::AwaitingTunnel, SessionEvent::TunnelPolled(found)) => {
                let step = self.tunnel.on_poll(found);
                match step {
                    TunnelWaitStep::Poll(ms) => SessionAction::PollTunnel(self.udid.clone(), ms),
                    TunnelWaitStep::Connected => {
                        self.stage = Stage::ServiceDiscovery;
                        SessionAction::ListServices
                    },
                    TunnelWaitStep::TimedOut => self.finish(
                        SessionOutcome::Failed(SessionError::TunnelTimeout),
                    ),
                }
            },
            (Stage::ServiceDiscovery, SessionEvent::ServicesListed(r)) => match r {
                Ok(table) => self.take_services(table),
                Err(e) => self.finish(
                    SessionOutcome::Failed(SessionError::Protocol(ProtocolStep::ServiceDiscovery, e)),
                ),
            },
            (Stage::ProcessLaunch, SessionEvent::Launched(r)) => match r {
                Ok(pid) => {
                    self.stage = Stage::RelaxingMemoryLimit;
                    self.pid = pid;
                    SessionAction::RelaxMemoryLimit(pid)
                },
                Err(e) => self.finish(
                    SessionOutcome::Failed(SessionError::Protocol(ProtocolStep::ProcessLaunch, e)),
                ),
            },
            (Stage::RelaxingMemoryLimit, SessionEvent::MemoryLimitRelaxed(_)) => {
                self.stage = Stage::DebugAttach;
                self.detaches_sent = 0;
                SessionAction::SendCommand(self.debug_port, DebugCommand::Attach(self.pid))
            },
            (Stage::DebugAttach, SessionEvent::CommandSent(r)) => match r {
                Ok(_) => if self.detaches_sent < self.detach_count {
                    self.detaches_sent = self.detaches_sent + 1;
                    SessionAction::SendCommand(self.debug_port, DebugCommand::Detach)
                } else {
                    self.stage = Stage::StoppingHeartbeat;
                    SessionAction::StopHeartbeat(self.udid.clone())
                },
                Err(e) => self.finish(
                    SessionOutcome::Failed(SessionError::Protocol(ProtocolStep::DebugAttach, e)),
                ),
            },
            (Stage::StoppingHeartbeat, SessionEvent::HeartbeatStopped) => self.finish(
                SessionOutcome::Done,
            ),
            _ => self.finish(SessionOutcome::Failed(SessionError::OutOfTurn)),
        }
    }

    fn take_services(&mut self, table: Vec<(String, u16)>) -> (r: SessionAction)
        ensures
            (*final(self), r) == after_services(*old(self), table@),
    {
        let pc = find_port(&table, PROCESS_CONTROL_SERVICE);
        let dp = find_port(&table, DEBUG_PROXY_SERVICE);
        match &self.goal {
            SessionGoal::Launch(bundle) => match (pc, dp) {
                (None, _) => self.finish(
                    SessionOutcome::Failed(SessionError::NotMounted(RequiredService::ProcessControl)),
                ),
                (Some(_), None) => self.finish(
                    SessionOutcome::Failed(SessionError::NotMounted(RequiredService::DebugProxy)),
                ),
                (Some(pport), Some(dport)) => {
                    let b = bundle.clone();
                    self.stage = Stage::ProcessLaunch;
                    self.debug_port = dport;
                    SessionAction::Launch(pport, b)
                },
            },
            SessionGoal::Attach(pid) => {
                let pid = *pid;
                let dport = match dp {
                    Some(p) => p,
                    None => {
                        return self.finish(
                            SessionOutcome::Failed(SessionError::NotMounted(RequiredService::DebugProxy)),
                        );
                    },
                };
                self.stage = Stage::DebugAttach;
                self.debug_port = dport;
                self.pid = pid;
                self.detaches_sent = 0;
                SessionAction::SendCommand(dport, DebugCommand::Attach(pid))
            },
        }
    }
}

} // verus!

use jitstreamer::mount::{self, MountQueueInfo};
use jitstreamer::queue::QueueStore;
use jitstreamer::response::{attach_response, launch_response, AttachReturn};
use jitstreamer::session::{
    find_port, DebugCommand, LaunchSession, ProtocolStep, RequiredService, SessionAction, SessionError, SessionEvent,
    SessionGoal, SessionOutcome, DEBUG_PROXY_SERVICE, PROCESS_CONTROL_SERVICE,
};
use jitstreamer::tunneld::{TunnelWait, TunnelWaitStep, TUNNEL_POLL_ATTEMPTS, TUNNEL_POLL_INTERVAL_MS};

/// A device that answers every step, with the tunnel listed from poll `tunnel_at`.
struct FakeDevice {
    store: QueueStore,
    services: Vec<(String, u16)>,
    tunnel_at: u32,
    polls: u32,
    started: Vec<String>,
    stopped: Vec<String>,
    commands: Vec<(u16, String)>,
    launched: Vec<String>,
}

impl FakeDevice {
    fn new(services: Vec<(String, u16)>, tunnel_at: u32) -> Self {
        FakeDevice {
            store: QueueStore::new(),
            services,
            tunnel_at,
            polls: 0,
            started: Vec::new(),
            stopped: Vec::new(),
            commands: Vec::new(),
            launched: Vec::new(),
        }
    }

    fn run(&mut self, mut s: LaunchSession) -> SessionOutcome {
        let mut ev = SessionEvent::Begin;
        loop {
            let action = s.on_event(ev);
            ev = match action {
                SessionAction::CheckMountQueue(udid) => {
                    SessionEvent::QueueChecked(mount::get_queue_info(&mut self.store, &udid))
                }
                SessionAction::EnqueueMount(udid, ip) => {
                    SessionEvent::MountEnqueued(mount::add_to_queue(&mut self.store, &udid, ip).ok())
                }
                SessionAction::StartHeartbeat(udid, _) => {
                    self.started.push(udid);
                    SessionEvent::HeartbeatStarted(Ok(()))
                }
                SessionAction::Register(_, _) => SessionEvent::Registered(true),
                SessionAction::PollTunnel(_, _) => {
                    self.polls += 1;
                    SessionEvent::TunnelPolled(self.polls >= self.tunnel_at)
                }
                SessionAction::ListServices => SessionEvent::ServicesListed(Ok(self.services.clone())),
                SessionAction::Launch(_, bundle) => {
                    self.launched.push(bundle);
                    SessionEvent::Launched(Ok(1234))
                }
                SessionAction::RelaxMemoryLimit(_) => SessionEvent::MemoryLimitRelaxed(false),
                SessionAction::SendCommand(port, c) => {
                    self.commands.push((port, c.text()));
                    SessionEvent::CommandSent(Ok(()))
                }
                SessionAction::StopHeartbeat(udid) => {
                    self.stopped.push(udid);
                    SessionEvent::HeartbeatStopped
                }
                SessionAction::Finish(outcome) => return outcome,
            };
        }
    }
}

fn all_services() -> Vec<(String, u16)> {
    vec![
        ("com.apple.mobile.lockdown.remote.trusted".to_string(), 50000),
        (PROCESS_CONTROL_SERVICE.to_string(), 50001),
        (DEBUG_PROXY_SERVICE.to_string(), 50002),
    ]
}

fn launch(udid: &str, mounted: bool) -> LaunchSession {
    LaunchSession::new(
        udid.to_string(),
        "10.7.0.2".to_string(),
        SessionGoal::Launch("com.example.app".to_string()),
        mounted,
        4,
        TUNNEL_POLL_ATTEMPTS,
    )
}

#[test]
fn unmounted_image_queues_mount_without_heartbeat_kill() {
    let mut dev = FakeDevice::new(all_services(), 1);
    let outcome = dev.run(launch("ABCD", false));
    assert!(matches!(outcome, SessionOutcome::MountRequired(1)));
    assert!(dev.started.is_empty());
    assert!(dev.stopped.is_empty());
    assert!(dev.launched.is_empty());
    assert!(matches!(mount::get_queue_info(&mut dev.store, "ABCD"), MountQueueInfo::Position(0)));
    let r = launch_response(&outcome);
    assert!(!r.ok);
    assert!(r.mounting);
    assert_eq!(r.error, None);
}

#[test]
fn mounted_device_launches_and_stops_heartbeat_once() {
    let mut dev = FakeDevice::new(all_services(), 3);
    let outcome = dev.run(launch("ABCD", true));
    assert!(matches!(outcome, SessionOutcome::Done));
    assert_eq!(dev.started, vec!["ABCD".to_string()]);
    assert_eq!(dev.stopped, vec!["ABCD".to_string()]);
    assert_eq!(dev.launched, vec!["com.example.app".to_string()]);
    assert_eq!(
        dev.commands,
        vec![
            (50002, "vAttach;4D2".to_string()),
            (50002, "D".to_string()),
            (50002, "D".to_string()),
            (50002, "D".to_string()),
            (50002, "D".to_string()),
        ]
    );
    let r = launch_response(&outcome);
    assert!(r.ok && r.launching && !r.mounting);
    assert_eq!(r.position, Some(0));
    assert_eq!(r.error, None);
}

#[test]
fn attach_sends_attach_then_one_detach() {
    let mut dev = FakeDevice::new(vec![(DEBUG_PROXY_SERVICE.to_string(), 7)], 1);
    let s = LaunchSession::new(
        "ABCD".to_string(),
        "10.7.0.2".to_string(),
        SessionGoal::Attach(5),
        true,
        1,
        TUNNEL_POLL_ATTEMPTS,
    );
    let outcome = dev.run(s);
    assert!(matches!(outcome, SessionOutcome::Done));
    assert_eq!(dev.commands, vec![(7, "vAttach;05".to_string()), (7, "D".to_string())]);
    assert_eq!(dev.stopped, vec!["ABCD".to_string()]);
    let r = attach_response(&outcome);
    assert!(r.success);
    assert_eq!(r.message, "");
}

#[test]
fn missing_debug_proxy_means_not_mounted() {
    let mut dev = FakeDevice::new(vec![(PROCESS_CONTROL_SERVICE.to_string(), 1)], 1);
    let outcome = dev.run(launch("ABCD", true));
    assert!(matches!(
        outcome,
        SessionOutcome::Failed(SessionError::NotMounted(RequiredService::DebugProxy))
    ));
    assert!(dev.stopped.is_empty());
    assert!(dev.launched.is_empty());
    let r = launch_response(&outcome);
    assert!(!r.ok);
    assert_eq!(
        r.error,
        Some("Device did not contain debug server service. Is the image mounted?".to_string())
    );
}

#[test]
fn attach_without_debug_proxy_fails_with_service_text() {
    let mut dev = FakeDevice::new(vec![(PROCESS_CONTROL_SERVICE.to_string(), 1)], 1);
    let s = LaunchSession::new(
        "ABCD".to_string(),
        "10.7.0.2".to_string(),
        SessionGoal::Attach(5),
        true,
        1,
        TUNNEL_POLL_ATTEMPTS,
    );
    let outcome = dev.run(s);
    assert!(dev.commands.is_empty());
    assert!(dev.stopped.is_empty());
    let r = attach_response(&outcome);
    assert!(!r.success);
    assert_eq!(r.message, "Device did not contain debug server service. Is the image mounted?");
}

#[test]
fn missing_process_control_means_not_mounted() {
    let mut dev = FakeDevice::new(vec![(DEBUG_PROXY_SERVICE.to_string(), 1)], 1);
    let outcome = dev.run(launch("ABCD", true));
    assert!(matches!(
        outcome,
        SessionOutcome::Failed(SessionError::NotMounted(RequiredService::ProcessControl))
    ));
    assert_eq!(
        launch_response(&outcome).error,
        Some("Device did not contain DVT service. Is the image mounted?".to_string())
    );
}

#[test]
fn tunnel_never_listed_times_out() {
    let mut dev = FakeDevice::new(all_services(), u32::MAX);
    let outcome = dev.run(launch("ABCD", true));
    assert!(matches!(outcome, SessionOutcome::Failed(SessionError::TunnelTimeout)));
    assert_eq!(dev.polls, 100);
    assert!(dev.stopped.is_empty());
    let r = launch_response(&outcome);
    assert_eq!(r.error, Some("device not reachable within timeout".to_string()));
}

#[test]
fn queued_mount_short_circuits() {
    let mut dev = FakeDevice::new(all_services(), 1);
    mount::add_to_queue(&mut dev.store, "OTHER", "10.7.0.3".to_string()).unwrap();
    mount::add_to_queue(&mut dev.store, "ABCD", "10.7.0.2".to_string()).unwrap();
    let outcome = dev.run(launch("ABCD", true));
    assert!(matches!(outcome, SessionOutcome::Queued(1)));
    assert!(dev.started.is_empty());
    let r = launch_response(&outcome);
    assert_eq!(r.position, Some(1));
    assert!(r.mounting);
}

#[test]
fn failures_carry_their_step() {
    let mut s = launch("ABCD", true);
    s.on_event(SessionEvent::Begin);
    s.on_event(SessionEvent::QueueChecked(MountQueueInfo::NotInQueue));
    s.on_event(SessionEvent::HeartbeatStarted(Ok(())));
    assert!(matches!(s.on_event(SessionEvent::Registered(true)), SessionAction::PollTunnel(_, 0)));
    assert!(matches!(s.on_event(SessionEvent::TunnelPolled(true)), SessionAction::ListServices));
    assert!(matches!(
        s.on_event(SessionEvent::ServicesListed(Ok(all_services()))),
        SessionAction::Launch(50001, _)
    ));
    let a = s.on_event(SessionEvent::Launched(Err("denied".to_string())));
    match a {
        SessionAction::Finish(o) => {
            assert!(matches!(o, SessionOutcome::Failed(SessionError::Protocol(ProtocolStep::ProcessLaunch, _))));
            assert_eq!(launch_response(&o).error, Some("Failed to launch app: denied".to_string()));
        }
        other => panic!("unexpected {:?}", other),
    }
    assert!(matches!(
        s.on_event(SessionEvent::HeartbeatStopped),
        SessionAction::Finish(SessionOutcome::Failed(SessionError::OutOfTurn))
    ));
}

#[test]
fn registration_refused_and_heartbeat_failure() {
    let mut s = launch("ABCD", true);
    s.on_event(SessionEvent::Begin);
    s.on_event(SessionEvent::QueueChecked(MountQueueInfo::NotInQueue));
    s.on_event(SessionEvent::HeartbeatStarted(Ok(())));
    let a = s.on_event(SessionEvent::Registered(false));
    assert!(matches!(a, SessionAction::Finish(SessionOutcome::Failed(SessionError::Registration))));
    let mut s = launch("ABCD", true);
    s.on_event(SessionEvent::Begin);
    s.on_event(SessionEvent::QueueChecked(MountQueueInfo::NotInQueue));
    match s.on_event(SessionEvent::HeartbeatStarted(Err("bad pairing".to_string()))) {
        SessionAction::Finish(o) => {
            let r = attach_response(&o);
            assert!(!r.success);
            assert_eq!(r.message, "Failed to heartbeat device: bad pairing");
        }
        other => panic!("unexpected {:?}", other),
    }
}

#[test]
fn mount_errors_are_reported() {
    let mut s = launch("ABCD", true);
    s.on_event(SessionEvent::Begin);
    match s.on_event(SessionEvent::QueueChecked(MountQueueInfo::Error("no image".to_string()))) {
        SessionAction::Finish(o) => assert_eq!(
            launch_response(&o).error,
            Some("mounting the developer disk image failed: no image".to_string())
        ),
        other => panic!("unexpected {:?}", other),
    }
    let mut s = launch("ABCD", true);
    s.on_event(SessionEvent::Begin);
    match s.on_event(SessionEvent::QueueChecked(MountQueueInfo::ServerError)) {
        SessionAction::Finish(o) => assert_eq!(
            launch_response(&o).error,
            Some("queue storage is unavailable".to_string())
        ),
        other => panic!("unexpected {:?}", other),
    }
}

#[test]
fn attach_fail_keeps_message() {
    let r = AttachReturn::fail("nope".to_string());
    assert!(!r.success);
    assert_eq!(r.message, "nope");
}

#[test]
fn tunnel_found_on_seventh_poll() {
    let (mut w, first) = TunnelWait::new(100);
    assert_eq!(first, TunnelWaitStep::Poll(0));
    for _ in 0..6 {
        assert_eq!(w.on_poll(false), TunnelWaitStep::Poll(TUNNEL_POLL_INTERVAL_MS));
    }
    assert_eq!(w.on_poll(true), TunnelWaitStep::Connected);
    assert_eq!(w.polls, 7);
}

#[test]
fn tunnel_never_found_after_hundred_polls() {
    let (mut w, _) = TunnelWait::new(100);
    let mut polls = 0;
    loop {
        polls += 1;
        match w.on_poll(false) {
            TunnelWaitStep::Poll(ms) => assert_eq!(ms, 100),
            TunnelWaitStep::TimedOut => break,
            TunnelWaitStep::Connected => panic!("not listed"),
        }
    }
    assert_eq!(polls, 100);
    assert_eq!(w.polls, 100);
    let (_, step) = TunnelWait::new(0);
    assert_eq!(step, TunnelWaitStep::TimedOut);
}

#[test]
fn find_port_takes_first_match() {
    let t = vec![("a".to_string(), 1), ("b".to_string(), 2), ("a".to_string(), 3)];
    assert_eq!(find_port(&t, "a"), Some(1));
    assert_eq!(find_port(&t, "b"), Some(2));
    assert_eq!(find_port(&t, "c"), None);
}

#[test]
fn debug_command_texts() {
    assert_eq!(DebugCommand::Attach(1234).text(), "vAttach;4D2");
    assert_eq!(DebugCommand::Attach(0).text(), "vAttach;00");
    assert_eq!(DebugCommand::Attach(255).text(), "vAttach;FF");
    assert_eq!(DebugCommand::Detach.text(), "D");
}

fn run_to(events: Vec<SessionEvent>) -> SessionOutcome {
    let mut s = launch("ABCD", true);
    let mut last = None;
    for ev in events {
        last = Some(s.on_event(ev));
    }
    match last {
        Some(SessionAction::Finish(o)) => o,
        other => panic!("unexpected {:?}", other),
    }
}

fn to_attach_commands() -> Vec<SessionEvent> {
    vec![
        SessionEvent::Begin,
        SessionEvent::QueueChecked(MountQueueInfo::NotInQueue),
        SessionEvent::HeartbeatStarted(Ok(())),
        SessionEvent::Registered(true),
        SessionEvent::TunnelPolled(true),
        SessionEvent::ServicesListed(Ok(all_services())),
        SessionEvent::Launched(Ok(77)),
        SessionEvent::MemoryLimitRelaxed(true),
    ]
}

#[test]
fn service_listing_failure() {
    let o = run_to(vec![
        SessionEvent::Begin,
        SessionEvent::QueueChecked(MountQueueInfo::NotInQueue),
        SessionEvent::HeartbeatStarted(Ok(())),
        SessionEvent::Registered(true),
        SessionEvent::TunnelPolled(true),
        SessionEvent::ServicesListed(Err("handshake".to_string())),
    ]);
    assert!(matches!(o, SessionOutcome::Failed(SessionError::Protocol(ProtocolStep::ServiceDiscovery, _))));
    assert_eq!(
        launch_response(&o).error,
        Some("Failed to list device services: handshake".to_string())
    );
}

#[test]
fn debug_command_failure_after_attach() {
    let mut evs = to_attach_commands();
    evs.push(SessionEvent::CommandSent(Ok(())));
    evs.push(SessionEvent::CommandSent(Err("closed".to_string())));
    let o = run_to(evs);
    assert!(matches!(o, SessionOutcome::Failed(SessionError::Protocol(ProtocolStep::DebugAttach, _))));
    assert_eq!(
        launch_response(&o).error,
        Some("Failed to send command to debug server: closed".to_string())
    );
}

#[test]
fn memory_limit_failure_is_harmless() {
    let mut s = launch("ABCD", true);
    let mut evs = to_attach_commands();
    evs.pop();
    for ev in evs {
        s.on_event(ev);
    }
    assert!(matches!(
        s.on_event(SessionEvent::MemoryLimitRelaxed(false)),
        SessionAction::SendCommand(50002, DebugCommand::Attach(77))
    ));
}

#[test]
fn mount_enqueue_failure_is_a_backend_error() {
    let mut s = launch("ABCD", false);
    s.on_event(SessionEvent::Begin);
    assert!(matches!(
        s.on_event(SessionEvent::QueueChecked(MountQueueInfo::NotInQueue)),
        SessionAction::EnqueueMount(_, _)
    ));
    assert!(matches!(
        s.on_event(SessionEvent::MountEnqueued(None)),
        SessionAction::Finish(SessionOutcome::Failed(SessionError::QueueBackend))
    ));
}

#[test]
fn mount_in_progress_answer() {
    let o = run_to(vec![SessionEvent::Begin, SessionEvent::QueueChecked(MountQueueInfo::InProgress)]);
    assert!(matches!(o, SessionOutcome::MountInProgress));
    let r = launch_response(&o);
    assert!(!r.ok && r.mounting);
    assert_eq!(r.position, Some(0));
    let a = attach_response(&o);
    assert!(!a.success);
    assert_eq!(a.message, "developer disk image is being mounted, try again later");
}

#[test]
fn identity_and_pairing_messages() {
    let o = SessionOutcome::Failed(SessionError::Identity("No device registered for 1.2.3.4".to_string()));
    assert_eq!(launch_response(&o).error, Some("No device registered for 1.2.3.4".to_string()));
    let o = SessionOutcome::Failed(SessionError::Pairing("missing".to_string()));
    assert_eq!(attach_response(&o).message, "Failed to get pairing file: missing");
    let o = SessionOutcome::Failed(SessionError::OutOfTurn);
    assert_eq!(
        launch_response(&o).error,
        Some("device session received an unexpected event".to_string())
    );
    let o = SessionOutcome::Failed(SessionError::Registration);
    assert_eq!(
        launch_response(&o).error,
        Some("device could not be registered with the multiplexer".to_string())
    );
}

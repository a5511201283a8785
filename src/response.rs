//! What a launch or attach request answers, flattened to plain fields and
//! text at this last step.

use vstd::prelude::*;
use crate::session::{ProtocolStep, RequiredService, SessionError, SessionOutcome};

verus! {

/// The answer to a launch request.
#[derive(Debug)]
pub struct LaunchAppReturn {
    pub ok: bool,
    /// True when the app was launched; kept for older clients.
    pub launching: bool,
    pub position: Option<usize>,
    pub error: Option<String>,
    /// True when the developer disk image has to be mounted first.
    pub mounting: bool,
}

/// The answer to an attach request.
#[derive(Debug)]
pub struct AttachReturn {
    pub success: bool,
    pub message: String,
}

impl AttachReturn {
    /// A failed attach with this message.
    pub fn fail(message: String) -> (r: Self)
        ensures
            !r.success,
            r.message == message,
    {
        AttachReturn { success: false, message }
    }
}

/// The text that tells a user what went wrong.
pub open spec fn error_text(e: SessionError) -> Seq<char> {
    match e {
        SessionError::Identity(m) => m@,
        SessionError::Pairing(m) => "Failed to get pairing file: "@ + m@,
        SessionError::QueueBackend => "queue storage is unavailable"@,
        SessionError::MountFailed(m) => "mounting the developer disk image failed: "@ + m@,
        SessionError::Heartbeat(m) => "Failed to heartbeat device: "@ + m@,
        SessionError::Registration => "device could not be registered with the multiplexer"@,
        SessionError::TunnelTimeout => "device not reachable within timeout"@,
        SessionError::Protocol(ProtocolStep::ServiceDiscovery, m) => "Failed to list device services: "@
            + m@,
        SessionError::Protocol(ProtocolStep::ProcessLaunch, m) => "Failed to launch app: "@ + m@,
        SessionError::Protocol(ProtocolStep::DebugAttach, m) => "Failed to send command to debug server: "@
            + m@,
        SessionError::NotMounted(RequiredService::ProcessControl) =>
            "Device did not contain DVT service. Is the image mounted?"@,
        SessionError::NotMounted(RequiredService::DebugProxy) =>
            "Device did not contain debug server service. Is the image mounted?"@,
        SessionError::OutOfTurn => "device session received an unexpected event"@,
    }
}

/// The text for a session that stopped because a mount comes first.
pub open spec fn mount_pending_text() -> Seq<char> {
    "developer disk image is being mounted, try again later"@
}

fn prefixed(prefix: &str, m: &String) -> (r: String)
    ensures
        r@ == prefix@ + m@,
{
    let mut s = String::from_str(prefix);
    s.append(m.as_str());
    s
}

/// The text of `e`.
pub fn error_message(e: &SessionError) -> (r: String)
    ensures
        r@ == error_text(*e),
{
    match e {
        SessionError::Identity(m) => m.clone(),
        SessionError::Pairing(m) => prefixed("Failed to get pairing file: ", m),
        SessionError::QueueBackend => String::from_str("queue storage is unavailable"),
        SessionError::MountFailed(m) => prefixed("mounting the developer disk image failed: ", m),
        SessionError::Heartbeat(m) => prefixed("Failed to heartbeat device: ", m),
        SessionError::Registration => String::from_str(
            "device could not be registered with the multiplexer",
        ),
        SessionError::TunnelTimeout => String::from_str("device not reachable within timeout"),
        SessionError::Protocol(ProtocolStep::ServiceDiscovery, m) => prefixed(
            "Failed to list device services: ",
            m,
        ),
        SessionError::Protocol(ProtocolStep::ProcessLaunch, m) => prefixed("Failed to launch app: ", m),
        SessionError::Protocol(ProtocolStep::DebugAttach, m) => prefixed(
            "Failed to send command to debug server: ",
            m,
        ),
        SessionError::NotMounted(RequiredService::ProcessControl) => String::from_str(
            "Device did not contain DVT service. Is the image mounted?",
        ),
        SessionError::NotMounted(RequiredService::DebugProxy) => String::from_str(
            "Device did not contain debug server service. Is the image mounted?",
        ),
        SessionError::OutOfTurn => String::from_str("device session received an unexpected event"),
    }
}

/// The launch answer for how a session ended.
pub fn launch_response(outcome: &SessionOutcome) -> (r: LaunchAppReturn)
    ensures
        r.ok == (*outcome is Done),
        r.launching == (*outcome is Done),
        r.mounting == (*outcome is Queued || *outcome is MountInProgress || *outcome is MountRequired),
        r.position == match *outcome {
            SessionOutcome::Done => Some(0usize),
            SessionOutcome::Queued(p) => Some(p),
            SessionOutcome::MountInProgress => Some(0usize),
            _ => None,
        },
        match *outcome {
            SessionOutcome::Failed(e) => r.error matches Some(m) && m@ == error_text(e),
            _ => r.error is None,
        },
{
    match outcome {
        SessionOutcome::Done => LaunchAppReturn {
            ok: true,
            launching: true,
            position: Some(0),
            error: None,
            mounting: false,
        },
        SessionOutcome::Queued(p) => LaunchAppReturn {
            ok: false,
            launching: false,
            position: Some(*p),
            error: None,
            mounting: true,
        },
        SessionOutcome::MountInProgress => LaunchAppReturn {
            ok: false,
            launching: false,
            position: Some(0),
            error: None,
            mounting: true,
        },
        SessionOutcome::MountRequired(_) => LaunchAppReturn {
            ok: false,
            launching: false,
            position: None,
            error: None,
            mounting: true,
        },
        SessionOutcome::Failed(e) => LaunchAppReturn {
            ok: false,
            launching: false,
            position: None,
            error: Some(error_message(e)),
            mounting: false,
        },
    }
}

/// The attach answer for how a session ended.
pub fn attach_response(outcome: &SessionOutcome) -> (r: AttachReturn)
    ensures
        r.success == (*outcome is Done),
        r.message@ == match *outcome {
            SessionOutcome::Done => Seq::<char>::empty(),
            SessionOutcome::Failed(e) => error_text(e),
            _ => mount_pending_text(),
        },
{
    match outcome {
        SessionOutcome::Done => AttachReturn { success: true, message: String::new() },
        SessionOutcome::Failed(e) => AttachReturn::fail(error_message(e)),
        _ => AttachReturn::fail(
            String::from_str("developer disk image is being mounted, try again later"),
        ),
    }
}

} // verus!

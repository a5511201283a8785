//! The keep-alive side of a device session.
//!
//! `HeartbeatCache` is the state of the single task that owns every
//! cancellation handle: it takes `SendRequest`s one at a time and hands back
//! the handle that must be told to stop, if any. `KeepAlive` is the decision
//! part of one device's keep-alive loop.

use vstd::prelude::*;
use crate::keyed::KeyedList;

verus! {

/// A message to the keep-alive registry.
pub enum SendRequest<H> {
    /// Keep this handle for the device, replacing (and stopping) an older one.
    Store((String, H)),
    /// Stop and forget the device's handle, if it has one.
    Kill(String),
}

/// The device a message is about.
pub open spec fn request_device<H>(msg: SendRequest<H>) -> Seq<char> {
    match msg {
        SendRequest::Store((d, _)) => d@,
        SendRequest::Kill(d) => d@,
    }
}

/// The registry after a message, and the handle that the message displaces.
pub open spec fn apply_request<H>(m: Map<Seq<char>, H>, msg: SendRequest<H>) -> (
    Map<Seq<char>, H>,
    Option<H>,
) {
    let d = request_device(msg);
    let displaced = if m.contains_key(d) {
        Some(m[d])
    } else {
        None
    };
    match msg {
        SendRequest::Store((_, h)) => (m.insert(d, h), displaced),
        SendRequest::Kill(_) => (m.remove(d), displaced),
    }
}

/// The registry after a run of messages.
pub open spec fn replay<H>(m: Map<Seq<char>, H>, msgs: Seq<SendRequest<H>>) -> Map<Seq<char>, H>
    decreases msgs.len(),
{
    if msgs.len() == 0 {
        m
    } else {
        apply_request(replay(m, msgs.drop_last()), msgs.last()).0
    }
}

/// How many messages of the run store a handle for `d`.
pub open spec fn stores_for<H>(msgs: Seq<SendRequest<H>>, d: Seq<char>) -> nat
    decreases msgs.len(),
{
    if msgs.len() == 0 {
        0
    } else {
        stores_for(msgs.drop_last(), d) + if msgs.last() is Store && request_device(msgs.last())
            == d {
            1nat
        } else {
            0nat
        }
    }
}

/// How many handles of `d` the run hands back to be stopped.
pub open spec fn stops_for<H>(m: Map<Seq<char>, H>, msgs: Seq<SendRequest<H>>, d: Seq<char>) -> nat
    decreases msgs.len(),
{
    if msgs.len() == 0 {
        0
    } else {
        let before = replay(m, msgs.drop_last());
        stops_for(m, msgs.drop_last(), d) + if request_device(msgs.last()) == d && apply_request(
            before,
            msgs.last(),
        ).1 is Some {
            1nat
        } else {
            0nat
        }
    }
}

/// The cancellation handles of the devices that are being kept alive, one per
/// device.
pub struct HeartbeatCache<H> {
    handles: KeyedList<H>,
}

impl<H> HeartbeatCache<H> {
    /// Device to handle.
    pub closed spec fn view(&self) -> Map<Seq<char>, H> {
        self.handles.view()
    }

    pub closed spec fn wf(&self) -> bool {
        self.handles.wf()
    }

    /// No device is kept alive.
    pub fn new() -> (r: Self)
        ensures
            r.wf(),
            r.view() == Map::<Seq<char>, H>::empty(),
    {
        HeartbeatCache { handles: KeyedList::new() }
    }

    /// Number of devices kept alive.
    pub fn len(&self) -> (r: usize)
        requires
            self.wf(),
        ensures
            r == self.view().len(),
    {
        self.handles.len()
    }

    /// Whether `udid` has a handle.
    pub fn contains(&self, udid: &str) -> (r: bool)
        requires
            self.wf(),
        ensures
            r == self.view().contains_key(udid@),
    {
        self.handles.contains(udid)
    }

    /// Takes one message. Returns the handle that the message displaces,
    /// which the caller signals to stop; a `Kill` for a device without a
    /// handle changes nothing and returns `None`.
    pub fn handle(&mut self, msg: SendRequest<H>) -> (r: Option<H>)
        requires
            old(self).wf(),
        ensures
            final(self).wf(),
            (final(self).view(), r) == apply_request(old(self).view(), msg),
    {
        match msg {
            SendRequest::Store((d, h)) => self.handles.insert(d, h),
            SendRequest::Kill(d) => self.handles.remove(d.as_str()),
        }
    }
}

/// Interval, in seconds, that the first keep-alive request asks for.
pub const FIRST_INTERVAL: u64 = 15;

/// Where a keep-alive loop is.
#[derive(PartialEq, Eq, Structural, Clone, Copy, Debug)]
pub enum KeepAlivePhase {
    AwaitingRequest,
    Answering,
    CheckingCancel,
    Stopped,
}

/// What the loop does next.
#[derive(PartialEq, Eq, Structural, Clone, Copy, Debug)]
pub enum KeepAliveStep {
    /// Wait for the device's request, passing the interval in seconds.
    AwaitRequest(u64),
    /// Send the acknowledgment.
    Acknowledge,
    /// Look, without waiting, whether the session was cancelled.
    CheckCancel,
    /// Leave the loop.
    Stop,
}

/// What came of the last step.
#[derive(PartialEq, Eq, Structural, Clone, Copy, Debug)]
pub enum KeepAliveEvent {
    /// The device's request with the interval it asks for, or `None` on a
    /// protocol error.
    Request(Option<u64>),
    /// Whether the acknowledgment went out.
    Acknowledged(bool),
    /// Whether a cancellation arrived (or the canceller is gone).
    Cancelled(bool),
}

/// One device's keep-alive loop.
#[derive(PartialEq, Eq, Structural, Clone, Copy, Debug)]
pub struct KeepAlive {
    pub phase: KeepAlivePhase,
    pub interval: u64,
}

/// The loop after an event, and its next step. Any failure, a cancellation
/// or an event out of turn ends the loop for good.
pub open spec fn keep_alive_next(k: KeepAlive, ev: KeepAliveEvent) -> (KeepAlive, KeepAliveStep) {
    let stopped = KeepAlive { phase: KeepAlivePhase::Stopped, ..k };
    match (k.phase, ev) {
        (KeepAlivePhase::AwaitingRequest, KeepAliveEvent::Request(Some(i))) => (
            KeepAlive { phase: KeepAlivePhase::Answering, interval: i },
            KeepAliveStep::Acknowledge,
        ),
        (KeepAlivePhase::Answering, KeepAliveEvent::Acknowledged(true)) => (
            KeepAlive { phase: KeepAlivePhase::CheckingCancel, ..k },
            KeepAliveStep::CheckCancel,
        ),
        (KeepAlivePhase::CheckingCancel, KeepAliveEvent::Cancelled(false)) => (
            KeepAlive { phase: KeepAlivePhase::AwaitingRequest, ..k },
            KeepAliveStep::AwaitRequest(k.interval),
        ),
        _ => (stopped, KeepAliveStep::Stop),
    }
}

impl KeepAlive {
    /// A loop about to wait for the first request, and that first step.
    pub fn new() -> (r: (Self, KeepAliveStep))
        ensures
            r.0 == (KeepAlive { phase: KeepAlivePhase::AwaitingRequest, interval: FIRST_INTERVAL }),
            r.1 == KeepAliveStep::AwaitRequest(FIRST_INTERVAL),
    {
        (
            KeepAlive { phase: KeepAlivePhase::AwaitingRequest, interval: FIRST_INTERVAL },
            KeepAliveStep::AwaitRequest(FIRST_INTERVAL),
        )
    }

    /// Takes the outcome of the last step and returns the next one.
    pub fn on_event(&mut self, ev: KeepAliveEvent) -> (r: KeepAliveStep)
        ensures
            (*final(self), r) == keep_alive_next(*old(self), ev),
    {
        match (self.phase, ev) {
            (KeepAlivePhase::AwaitingRequest, KeepAliveEvent::Request(Some(i))) => {
                self.phase = KeepAlivePhase::Answering;
                self.interval = i;
                KeepAliveStep::Acknowledge
            },
            (KeepAlivePhase::Answering, KeepAliveEvent::Acknowledged(true)) => {
                self.phase = KeepAlivePhase::CheckingCancel;
                KeepAliveStep::CheckCancel
            },
            (KeepAlivePhase::CheckingCancel, KeepAliveEvent::Cancelled(false)) => {
                self.phase = KeepAlivePhase::AwaitingRequest;
                KeepAliveStep::AwaitRequest(self.interval)
            },
            _ => {
                self.phase = KeepAlivePhase::Stopped;
                KeepAliveStep::Stop
            },
        }
    }
}

/// A loop that has stopped stays stopped, whatever comes next: a failed
/// round is never retried.
pub proof fn lemma_stopped_loop_stays_stopped(k: KeepAlive, ev: KeepAliveEvent)
    requires
        k.phase == KeepAlivePhase::Stopped,
    ensures
        keep_alive_next(k, ev) == (k, KeepAliveStep::Stop),
{
}

/// Whatever the order of `Store` and `Kill` messages, every handle stored
/// for a device is either the one handle the registry keeps for it or has
/// been handed back to be stopped: at most one handle per device is live.
pub proof fn lemma_one_live_handle_per_device<H>(msgs: Seq<SendRequest<H>>, d: Seq<char>)
    ensures
        stores_for(msgs, d) == stops_for(Map::empty(), msgs, d) + if replay(
            Map::empty(),
            msgs,
        ).contains_key(d) {
            1nat
        } else {
            0nat
        },
    decreases msgs.len(),
{
    if msgs.len() > 0 {
        lemma_one_live_handle_per_device(msgs.drop_last(), d);
    }
}

/// A `Kill` for a device without a handle leaves the registry as it is and
/// stops nothing.
pub proof fn lemma_kill_absent_is_noop<H>(m: Map<Seq<char>, H>, udid: String)
    requires
        !m.contains_key(udid@),
    ensures
        apply_request(m, SendRequest::Kill(udid)) == (m, None::<H>),
{
    assert(m.remove(udid@) =~= m);
}

} // verus!

//! Waiting for the tunnel-management service to list a device.

use vstd::prelude::*;

verus! {

/// Polls made before the wait is given up.
pub const TUNNEL_POLL_ATTEMPTS: u32 = 100;

/// Pause between two polls, in milliseconds.
pub const TUNNEL_POLL_INTERVAL_MS: u64 = 100;

/// The characters of each string.
pub open spec fn texts(v: Seq<String>) -> Seq<Seq<char>> {
    v.map_values(|s: String| s@)
}

/// The keys of the JSON object that `body` holds, or `None` when `body` is
/// not a JSON object.
pub uninterp spec fn json_object_keys(body: Seq<u8>) -> Option<Seq<Seq<char>>>;

/// Relies on `serde_json::from_slice` to parse the service's answer, and on
/// `serde_json::Map::keys` to list the device ids it is keyed by.
#[verifier::external_body]
fn object_keys(body: &[u8]) -> (r: Option<Vec<String>>)
    ensures
        match r {
            Some(v) => json_object_keys(body@) == Some(texts(v@)),
            None => json_object_keys(body@) is None,
        },
{
    match serde_json::from_slice::<serde_json::Value>(body) {
        Ok(serde_json::Value::Object(map)) => Some(map.keys().cloned().collect()),
        _ => None,
    }
}

/// Whether one of `keys` is `udid`.
pub fn lists_device(keys: &Vec<String>, udid: &str) -> (r: bool)
    ensures
        r == texts(keys@).contains(udid@),
{
    let d = udid.to_owned();
    let mut k: usize = 0;
    while k < keys.len()
        invariant
            k <= keys@.len(),
            d@ == udid@,
            forall|j: int| 0 <= j < k ==> #[trigger] keys@[j]@ != d@,
        decreases keys@.len() - k,
    {
        if keys[k] == d {
            assert(keys@[k as int]@ == d@);
            assert(texts(keys@)[k as int] == keys@[k as int]@);
            assert(texts(keys@).len() == keys@.len());
            assert(texts(keys@).contains(udid@));
            return true;
        }
        k = k + 1;
    }
    assert forall|j: int| 0 <= j < keys@.len() implies #[trigger] texts(keys@)[j] != udid@ by {
        assert(keys@[j]@ != d@);
    }
    false
}

/// Whether the service's answer `body` lists `udid` among its tunnels.
pub fn check_connected(body: &[u8], udid: &str) -> (r: bool)
    ensures
        r == match json_object_keys(body@) {
            Some(ks) => ks.contains(udid@),
            None => false,
        },
{
    match object_keys(body) {
        Some(keys) => lists_device(&keys, udid),
        None => false,
    }
}

/// What the waiting side does next.
#[derive(PartialEq, Eq, Structural, Clone, Copy, Debug)]
pub enum TunnelWaitStep {
    /// Poll the service after this many milliseconds.
    Poll(u64),
    /// The device is listed.
    Connected,
    /// Every poll came back without the device.
    TimedOut,
}

/// A wait for a device's tunnel, with a budget of polls.
#[derive(PartialEq, Eq, Structural, Clone, Copy, Debug)]
pub struct TunnelWait {
    pub polls: u32,
    pub budget: u32,
}

/// The wait after a poll that did (`found`) or did not find the device,
/// and its next step.
pub open spec fn tunnel_wait_next(w: TunnelWait, found: bool) -> (TunnelWait, TunnelWaitStep) {
    if w.polls >= w.budget {
        (w, TunnelWaitStep::TimedOut)
    } else {
        let n = TunnelWait { polls: (w.polls + 1) as u32, ..w };
        if found {
            (n, TunnelWaitStep::Connected)
        } else if n.polls >= n.budget {
            (n, TunnelWaitStep::TimedOut)
        } else {
            (n, TunnelWaitStep::Poll(TUNNEL_POLL_INTERVAL_MS))
        }
    }
}

/// Feeds the poll results `found` to the wait until it stops polling;
/// the final step and the number of polls it took.
pub open spec fn tunnel_wait_run(w: TunnelWait, found: Seq<bool>) -> (TunnelWaitStep, nat)
    decreases found.len(),
{
    if found.len() == 0 {
        (TunnelWaitStep::Poll(TUNNEL_POLL_INTERVAL_MS), w.polls as nat)
    } else {
        let (n, step) = tunnel_wait_next(w, found[0]);
        if step is Poll {
            tunnel_wait_run(n, found.drop_first())
        } else {
            (step, n.polls as nat)
        }
    }
}

impl TunnelWait {
    /// A wait with `budget` polls, and its first step: poll at once, or
    /// time out when the budget is zero.
    pub fn new(budget: u32) -> (r: (Self, TunnelWaitStep))
        ensures
            r.0 == (TunnelWait { polls: 0, budget }),
            r.1 == if budget == 0 {
                TunnelWaitStep::TimedOut
            } else {
                TunnelWaitStep::Poll(0)
            },
    {
        let w = TunnelWait { polls: 0, budget };
        if budget == 0 {
            (w, TunnelWaitStep::TimedOut)
        } else {
            (w, TunnelWaitStep::Poll(0))
        }
    }

    /// Takes the result of a poll and returns the next step.
    pub fn on_poll(&mut self, found: bool) -> (r: TunnelWaitStep)
        ensures
            (*final(self), r) == tunnel_wait_next(*old(self), found),
    {
        if self.polls >= self.budget {
            return TunnelWaitStep::TimedOut;
        }
        self.polls = self.polls + 1;
        if found {
            TunnelWaitStep::Connected
        } else if self.polls >= self.budget {
            TunnelWaitStep::TimedOut
        } else {
            TunnelWaitStep::Poll(TUNNEL_POLL_INTERVAL_MS)
        }
    }
}

/// A device that first shows up at poll `k` of the budget is reported
/// connected after exactly `k` polls.
pub proof fn lemma_found_at_poll(w: TunnelWait, found: Seq<bool>, k: nat)
    requires
        w.polls < k <= w.budget,
        k - w.polls <= found.len(),
        found[k - w.polls - 1],
        forall|j: int| 0 <= j < k - w.polls - 1 ==> !found[j],
    ensures
        tunnel_wait_run(w, found) == (TunnelWaitStep::Connected, k),
    decreases k - w.polls,
{
    let (n, step) = tunnel_wait_next(w, found[0]);
    if k - w.polls > 1 {
        assert(!found[0]);
        let rest = found.drop_first();
        assert forall|j: int| 0 <= j < k - n.polls - 1 implies !rest[j] by {
            assert(rest[j] == found[j + 1]);
        }
        assert(rest[k - n.polls - 1] == found[k - w.polls - 1]);
        lemma_found_at_poll(n, rest, k);
    }
}

/// A device that never shows up within the budget is reported timed out
/// after exactly the budgeted number of polls.
pub proof fn lemma_never_found(w: TunnelWait, found: Seq<bool>)
    requires
        w.polls < w.budget,
        w.budget - w.polls <= found.len(),
        forall|j: int| 0 <= j < w.budget - w.polls ==> !found[j],
    ensures
        tunnel_wait_run(w, found) == (TunnelWaitStep::TimedOut, w.budget as nat),
    decreases w.budget - w.polls,
{
    let (n, step) = tunnel_wait_next(w, found[0]);
    assert(!found[0]);
    if n.polls < n.budget {
        let rest = found.drop_first();
        assert forall|j: int| 0 <= j < n.budget - n.polls implies !rest[j] by {
            assert(rest[j] == found[j + 1]);
        }
        lemma_never_found(n, rest);
    }
}

} // verus!

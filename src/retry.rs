//! Bounded retry of a storage insertion that may find the store busy.

use vstd::prelude::*;

verus! {

/// Attempts made before an insertion is given up.
pub const INSERT_ATTEMPTS: u32 = 5;

/// Pause between two attempts, in milliseconds.
pub const BUSY_BACKOFF_MS: u64 = 100;

/// What to do after an attempt.
#[derive(PartialEq, Eq, Structural, Clone, Copy, Debug)]
pub enum RetryStep {
    /// The row is in.
    Inserted,
    /// Wait this many milliseconds, then try again.
    WaitThenRetry(u64),
    /// The store stayed busy: report a backend error.
    GiveUp,
}

/// The busy count and step after an attempt, from the busy count before it.
pub open spec fn retry_next(busy_seen: nat, busy: bool) -> (nat, RetryStep) {
    if busy_seen >= INSERT_ATTEMPTS {
        (busy_seen, RetryStep::GiveUp)
    } else if !busy {
        (busy_seen, RetryStep::Inserted)
    } else if busy_seen + 1 < INSERT_ATTEMPTS {
        (busy_seen + 1, RetryStep::WaitThenRetry(BUSY_BACKOFF_MS))
    } else {
        (busy_seen + 1, RetryStep::GiveUp)
    }
}

/// The steps taken for a run of attempt results, up to the first step that
/// is not a retry.
pub open spec fn retry_trace(busy_seen: nat, busy: Seq<bool>) -> Seq<RetryStep>
    decreases busy.len(),
{
    if busy.len() == 0 {
        seq![]
    } else {
        let (n, step) = retry_next(busy_seen, busy[0]);
        if step is WaitThenRetry {
            seq![step].add(retry_trace(n, busy.drop_first()))
        } else {
            seq![step]
        }
    }
}

/// Counts the busy answers of one insertion.
pub struct InsertRetry {
    busy_seen: u32,
}

impl InsertRetry {
    pub closed spec fn busy_seen(&self) -> nat {
        self.busy_seen as nat
    }

    /// Before the first attempt.
    pub fn new() -> (r: Self)
        ensures
            r.busy_seen() == 0,
    {
        InsertRetry { busy_seen: 0 }
    }

    /// Records the result of an attempt (`busy` when the store refused it)
    /// and says what to do next.
    pub fn record(&mut self, busy: bool) -> (r: RetryStep)
        ensures
            (final(self).busy_seen(), r) == retry_next(old(self).busy_seen(), busy),
    {
        if self.busy_seen >= INSERT_ATTEMPTS {
            RetryStep::GiveUp
        } else if !busy {
            RetryStep::Inserted
        } else {
            self.busy_seen = self.busy_seen + 1;
            if self.busy_seen < INSERT_ATTEMPTS {
                RetryStep::WaitThenRetry(BUSY_BACKOFF_MS)
            } else {
                RetryStep::GiveUp
            }
        }
    }
}

/// `k` busy answers and then a success, with fewer than the allowed number
/// of busy answers, end in the insertion after `k` waits.
pub proof fn lemma_busy_then_inserted(busy_seen: nat, k: nat)
    requires
        busy_seen + k < INSERT_ATTEMPTS,
    ensures
        retry_trace(busy_seen, Seq::new(k, |i: int| true).push(false)) == Seq::new(
            k,
            |i: int| RetryStep::WaitThenRetry(BUSY_BACKOFF_MS),
        ).push(RetryStep::Inserted),
    decreases k,
{
    let busy = Seq::new(k, |i: int| true).push(false);
    if k > 0 {
        lemma_busy_then_inserted(busy_seen + 1, (k - 1) as nat);
        assert(busy.drop_first() =~= Seq::new((k - 1) as nat, |i: int| true).push(false));
        assert(seq![RetryStep::WaitThenRetry(BUSY_BACKOFF_MS)].add(
            Seq::new((k - 1) as nat, |i: int| RetryStep::WaitThenRetry(BUSY_BACKOFF_MS)).push(
                RetryStep::Inserted,
            ),
        ) =~= Seq::new(k, |i: int| RetryStep::WaitThenRetry(BUSY_BACKOFF_MS)).push(
            RetryStep::Inserted,
        ));
    } else {
        assert(busy =~= seq![false]);
        assert(retry_trace(busy_seen, busy) =~= seq![RetryStep::Inserted]);
        assert(Seq::new(0, |i: int| RetryStep::WaitThenRetry(BUSY_BACKOFF_MS)).push(
            RetryStep::Inserted,
        ) =~= seq![RetryStep::Inserted]);
    }
}

/// As many busy answers as there are attempts end in giving up, after one
/// wait fewer than there were attempts.
pub proof fn lemma_busy_every_attempt_gives_up()
    ensures
        retry_trace(0, Seq::new(INSERT_ATTEMPTS as nat, |i: int| true)) == Seq::new(
            (INSERT_ATTEMPTS - 1) as nat,
            |i: int| RetryStep::WaitThenRetry(BUSY_BACKOFF_MS),
        ).push(RetryStep::GiveUp),
{
    let w = RetryStep::WaitThenRetry(BUSY_BACKOFF_MS);
    let b5 = Seq::new(5, |i: int| true);
    assert(b5.drop_first() =~= Seq::new(4, |i: int| true));
    assert(Seq::new(4, |i: int| true).drop_first() =~= Seq::new(3, |i: int| true));
    assert(Seq::new(3, |i: int| true).drop_first() =~= Seq::new(2, |i: int| true));
    assert(Seq::new(2, |i: int| true).drop_first() =~= Seq::new(1, |i: int| true));
    assert(retry_trace(4, Seq::new(1, |i: int| true)) =~= seq![RetryStep::GiveUp]);
    assert(retry_trace(3, Seq::new(2, |i: int| true)) =~= seq![w, RetryStep::GiveUp]);
    assert(retry_trace(2, Seq::new(3, |i: int| true)) =~= seq![w, w, RetryStep::GiveUp]);
    assert(retry_trace(1, Seq::new(4, |i: int| true)) =~= seq![w, w, w, RetryStep::GiveUp]);
    assert(retry_trace(0, b5) =~= seq![w, w, w, w, RetryStep::GiveUp]);
    assert(Seq::new(4, |i: int| w).push(RetryStep::GiveUp) =~= seq![w, w, w, w, RetryStep::GiveUp]);
}

} // verus!

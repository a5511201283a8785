//! An ordered, per-kind queue of device operations.
//!
//! Every entry receives an ordinal when it is inserted. Ordinals grow strictly
//! in insertion order and are never handed out twice by the same queue, so a
//! pending entry's place in line is the number of pending entries with a
//! smaller ordinal.

use vstd::prelude::*;

verus! {

/// The two operations that are serialised per device.
#[derive(PartialEq, Eq, Structural, Clone, Copy, Debug)]
pub enum QueueKind {
    Mount,
    Launch,
}

/// Where an entry stands; moved forward by the worker that drains the queue.
#[derive(Clone, Debug)]
pub enum EntryStatus {
    Pending,
    InProgress,
    Error(String),
}

/// One queued request.
#[derive(Clone, Debug)]
pub struct QueueEntry {
    pub device_id: String,
    /// The address the request came from, where known.
    pub source: Option<String>,
    /// The bundle to launch, for launch entries.
    pub target: Option<String>,
    pub status: EntryStatus,
    pub ordinal: u64,
}

/// What a status query reports for one device.
#[derive(Clone, Debug)]
pub enum QueueStatus {
    NotQueued,
    /// Pending, with this many pending entries ahead of it.
    QueuedAt(usize),
    InProgress,
    /// The worker failed; the message is handed out once and the entry is gone.
    Failed(String),
}

/// Why an insertion did not happen.
#[derive(PartialEq, Eq, Structural, Clone, Copy, Debug)]
pub enum QueueError {
    /// The device already has an entry in this queue.
    AlreadyQueued,
    /// Every ordinal has been handed out.
    OrdinalsExhausted,
}

/// Index of the entry that belongs to `d`, or -1.
pub open spec fn find_device(s: Seq<QueueEntry>, d: Seq<char>) -> int
    decreases s.len(),
{
    if s.len() == 0 {
        -1
    } else if s.last().device_id@ == d {
        s.len() - 1
    } else {
        find_device(s.drop_last(), d)
    }
}

/// Number of pending entries in `s` whose ordinal is below `o`.
pub open spec fn pending_below(s: Seq<QueueEntry>, o: u64) -> nat
    decreases s.len(),
{
    if s.len() == 0 {
        0
    } else {
        pending_below(s.drop_last(), o) + if s.last().status is Pending && s.last().ordinal < o {
            1nat
        } else {
            0nat
        }
    }
}

/// The characters of an optional string.
pub open spec fn text_of(o: Option<String>) -> Option<Seq<char>> {
    match o {
        Some(s) => Some(s@),
        None => None,
    }
}

/// The entry appended by an insertion.
pub open spec fn new_entry(
    d: Seq<char>,
    source: Option<Seq<char>>,
    target: Option<Seq<char>>,
    e: QueueEntry,
    o: u64,
) -> bool {
    &&& e.device_id@ == d
    &&& text_of(e.source) == source
    &&& text_of(e.target) == target
    &&& e.status is Pending
    &&& e.ordinal == o
}

/// How a status query for `d` answers and changes the entries `pre` into `post`.
pub open spec fn answers(
    pre: Seq<QueueEntry>,
    post: Seq<QueueEntry>,
    d: Seq<char>,
    r: QueueStatus,
) -> bool {
    let i = find_device(pre, d);
    if i < 0 {
        r is NotQueued && post == pre
    } else {
        match pre[i].status {
            EntryStatus::Pending => {
                &&& r matches QueueStatus::QueuedAt(p) && p == pending_below(pre, pre[i].ordinal)
                &&& post == pre
            },
            EntryStatus::InProgress => r is InProgress && post == pre,
            EntryStatus::Error(m) => {
                &&& r matches QueueStatus::Failed(msg) && msg@ == m@
                &&& post == pre.remove(i)
            },
        }
    }
}

/// The queue of one kind of operation.
pub struct OrdinalQueue {
    entries: Vec<QueueEntry>,
    next_ordinal: u64,
}

impl OrdinalQueue {
    /// The entries, oldest first.
    pub closed spec fn entries(&self) -> Seq<QueueEntry> {
        self.entries@
    }

    /// The ordinal that the next insertion receives.
    pub closed spec fn next_ordinal(&self) -> u64 {
        self.next_ordinal
    }

    /// Ordinals grow with the position and stay below the next one to be
    /// handed out; no device has two entries.
    pub closed spec fn wf(&self) -> bool {
        &&& forall|i: int, j: int|
            0 <= i < j < self.entries@.len() ==> #[trigger] self.entries@[i].ordinal
                < #[trigger] self.entries@[j].ordinal
        &&& forall|i: int|
            0 <= i < self.entries@.len() ==> #[trigger] self.entries@[i].ordinal
                < self.next_ordinal
        &&& forall|i: int, j: int|
            0 <= i < j < self.entries@.len() ==> #[trigger] self.entries@[i].device_id@
                != #[trigger] self.entries@[j].device_id@
    }

    /// An empty queue whose first ordinal is 1.
    pub fn new() -> (r: Self)
        ensures
            r.wf(),
            r.entries().len() == 0,
            r.next_ordinal() == 1,
    {
        OrdinalQueue { entries: Vec::new(), next_ordinal: 1 }
    }

    /// Number of entries.
    pub fn len(&self) -> (r: usize)
        ensures
            r == self.entries().len(),
    {
        self.entries.len()
    }

    /// The device of each entry, oldest first.
    pub fn device_ids(&self) -> (r: Vec<String>)
        ensures
            r@.len() == self.entries().len(),
            forall|i: int| 0 <= i < r@.len() ==> #[trigger] r@[i]@ == self.entries()[i].device_id@,
    {
        let mut r: Vec<String> = Vec::new();
        let mut k: usize = 0;
        while k < self.entries.len()
            invariant
                k <= self.entries@.len(),
                r@.len() == k,
                forall|i: int| 0 <= i < k ==> #[trigger] r@[i]@ == self.entries@[i].device_id@,
            decreases self.entries@.len() - k,
        {
            r.push(self.entries[k].device_id.clone());
            k = k + 1;
        }
        r
    }

    /// Index of the entry of `device_id`, if it has one.
    fn index_of(&self, device_id: &String) -> (r: Option<usize>)
        requires
            self.wf(),
        ensures
            match r {
                Some(i) => {
                    &&& i == find_device(self.entries(), device_id@)
                    &&& i < self.entries().len()
                    &&& self.entries()[i as int].device_id@ == device_id@
                },
                None => find_device(self.entries(), device_id@) == -1,
            },
    {
        proof {
            lemma_find_device_found(self.entries@, device_id@);
        }
        let mut k: usize = self.entries.len();
        assert(self.entries@.take(k as int) =~= self.entries@);
        while k > 0
            invariant
                k <= self.entries@.len(),
                find_device(self.entries@, device_id@) == find_device(
                    self.entries@.take(k as int),
                    device_id@,
                ),
            decreases k,
        {
            let ghost s = self.entries@.take(k as int);
            assert(s.drop_last() == self.entries@.take(k - 1));
            if self.entries[k - 1].device_id == *device_id {
                return Some(k - 1);
            }
            k = k - 1;
        }
        None
    }

    /// Appends a pending entry for `device_id` and returns its ordinal.
    ///
    /// A device that already has an entry is refused, as is an insertion
    /// once every ordinal has been used.
    pub fn enqueue(&mut self, device_id: &str, source: Option<String>, target: Option<String>) -> (r:
        Result<u64, QueueError>)
        requires
            old(self).wf(),
        ensures
            final(self).wf(),
            find_device(old(self).entries(), device_id@) >= 0 ==> r == Err::<u64, QueueError>(
                QueueError::AlreadyQueued),
            find_device(old(self).entries(), device_id@) < 0 && old(self).next_ordinal() == u64::MAX
                ==> r == Err::<u64, QueueError>(QueueError::OrdinalsExhausted),
            find_device(old(self).entries(), device_id@) < 0 && old(self).next_ordinal() < u64::MAX
                ==> r == Ok::<u64, QueueError>(old(self).next_ordinal()),
            r is Err ==> *final(self) == *old(self),
            r matches Ok(o) ==> {
                &&& final(self).entries().len() == old(self).entries().len() + 1
                &&& final(self).entries().drop_last() == old(self).entries()
                &&& new_entry(device_id@, text_of(source), text_of(target), final(self).entries().last(), o)
                &&& final(self).next_ordinal() == o + 1
            },
    {
        let d = device_id.to_owned();
        match self.index_of(&d) {
            Some(_) => {
                return Err(QueueError::AlreadyQueued);
            },
            None => {},
        }
        if self.next_ordinal == u64::MAX {
            return Err(QueueError::OrdinalsExhausted);
        }
        proof {
            lemma_find_device_absent(self.entries@, d@);
        }
        let o = self.next_ordinal;
        let e = QueueEntry { device_id: d, source, target, status: EntryStatus::Pending, ordinal: o };
        self.entries.push(e);
        self.next_ordinal = o + 1;
        assert(self.entries@.drop_last() == old(self).entries@);
        Ok(o)
    }

    /// Reports where `device_id` stands. A failed entry is reported with its
    /// message and removed in the same step, so it is reported once.
    pub fn query_status(&mut self, device_id: &str) -> (r: QueueStatus)
        requires
            old(self).wf(),
        ensures
            final(self).wf(),
            final(self).next_ordinal() == old(self).next_ordinal(),
            answers(old(self).entries(), final(self).entries(), device_id@, r),
    {
        let d = device_id.to_owned();
        let i = match self.index_of(&d) {
            Some(i) => i,
            None => {
                return QueueStatus::NotQueued;
            },
        };
        match &self.entries[i].status {
            EntryStatus::Pending => {},
            EntryStatus::InProgress => {
                return QueueStatus::InProgress;
            },
            EntryStatus::Error(_) => {
                let e = self.entries.remove(i);
                proof {
                    assert forall|a: int, b: int| 0 <= a < b < self.entries@.len() implies
                        #[trigger] self.entries@[a].ordinal < #[trigger] self.entries@[b].ordinal
                        && self.entries@[a].device_id@ != self.entries@[b].device_id@ by {
                        let a0 = if a < i { a } else { a + 1 };
                        let b0 = if b < i { b } else { b + 1 };
                        assert(old(self).entries@[a0].ordinal < old(self).entries@[b0].ordinal);
                    }
                }
                match e.status {
                    EntryStatus::Error(m) => {
                        return QueueStatus::Failed(m);
                    },
                    _ => {
                        return QueueStatus::NotQueued;
                    },
                }
            },
        }
        let o = self.entries[i].ordinal;
        let mut count: usize = 0;
        let mut k: usize = 0;
        while k < self.entries.len()
            invariant
                k <= self.entries@.len(),
                count == pending_below(self.entries@.take(k as int), o),
                count <= k,
            decreases self.entries@.len() - k,
        {
            let ghost s = self.entries@.take(k + 1);
            assert(s.drop_last() == self.entries@.take(k as int));
            let pending = match self.entries[k].status {
                EntryStatus::Pending => true,
                _ => false,
            };
            if pending && self.entries[k].ordinal < o {
                count = count + 1;
            }
            k = k + 1;
        }
        assert(self.entries@.take(k as int) =~= self.entries@);
        QueueStatus::QueuedAt(count)
    }

    /// Sets the status of the entry of `device_id`; false when it has none.
    pub fn set_status(&mut self, device_id: &str, status: EntryStatus) -> (r: bool)
        requires
            old(self).wf(),
        ensures
            final(self).wf(),
            final(self).next_ordinal() == old(self).next_ordinal(),
            r == (find_device(old(self).entries(), device_id@) >= 0),
            !r ==> final(self).entries() == old(self).entries(),
            r ==> ({
                let i = find_device(old(self).entries(), device_id@);
                final(self).entries() == old(self).entries().update(
                    i,
                    QueueEntry { status, ..old(self).entries()[i] },
                )
            }),
    {
        let d = device_id.to_owned();
        match self.index_of(&d) {
            Some(i) => {
                let mut e = self.entries.remove(i);
                e.status = status;
                self.entries.insert(i, e);
                assert(self.entries@ =~= old(self).entries@.update(
                    i as int,
                    QueueEntry { status, ..old(self).entries@[i as int] },
                ));
                true
            },
            None => false,
        }
    }

    /// Removes the entry of `device_id`, as the worker does when it is done
    /// with it; false when there is none.
    pub fn remove(&mut self, device_id: &str) -> (r: bool)
        requires
            old(self).wf(),
        ensures
            final(self).wf(),
            final(self).next_ordinal() == old(self).next_ordinal(),
            r == (find_device(old(self).entries(), device_id@) >= 0),
            !r ==> final(self).entries() == old(self).entries(),
            r ==> final(self).entries() == old(self).entries().remove(
                find_device(old(self).entries(), device_id@),
            ),
    {
        let d = device_id.to_owned();
        match self.index_of(&d) {
            Some(i) => {
                self.entries.remove(i);
                proof {
                    assert forall|a: int, b: int| 0 <= a < b < self.entries@.len() implies
                        #[trigger] self.entries@[a].ordinal < #[trigger] self.entries@[b].ordinal
                        && self.entries@[a].device_id@ != self.entries@[b].device_id@ by {
                        let a0 = if a < i { a } else { a + 1 };
                        let b0 = if b < i { b } else { b + 1 };
                        assert(old(self).entries@[a0].ordinal < old(self).entries@[b0].ordinal);
                    }
                }
                true
            },
            None => false,
        }
    }

    /// Drops every entry. Ordinals already handed out stay used.
    pub fn clear(&mut self)
        requires
            old(self).wf(),
        ensures
            final(self).wf(),
            final(self).entries().len() == 0,
            final(self).next_ordinal() == old(self).next_ordinal(),
    {
        self.entries.clear();
    }
}

/// The queues of both kinds.
pub struct QueueStore {
    pub mount: OrdinalQueue,
    pub launch: OrdinalQueue,
}

impl QueueStore {
    /// The queue of `kind`.
    pub open spec fn queue(&self, kind: QueueKind) -> OrdinalQueue {
        match kind {
            QueueKind::Mount => self.mount,
            QueueKind::Launch => self.launch,
        }
    }

    pub open spec fn wf(&self) -> bool {
        self.mount.wf() && self.launch.wf()
    }

    /// Both queues empty.
    pub fn new() -> (r: Self)
        ensures
            r.wf(),
            r.mount.entries().len() == 0,
            r.launch.entries().len() == 0,
    {
        QueueStore { mount: OrdinalQueue::new(), launch: OrdinalQueue::new() }
    }

    /// `OrdinalQueue::enqueue` on the queue of `kind`; the other is untouched.
    pub fn enqueue(
        &mut self,
        kind: QueueKind,
        device_id: &str,
        source: Option<String>,
        target: Option<String>,
    ) -> (r: Result<u64, QueueError>)
        requires
            old(self).wf(),
        ensures
            final(self).wf(),
            find_device(old(self).queue(kind).entries(), device_id@) >= 0 ==> r == Err::<
                u64,
                QueueError,
            >(QueueError::AlreadyQueued),
            find_device(old(self).queue(kind).entries(), device_id@) < 0 && old(self).queue(
                kind,
            ).next_ordinal() == u64::MAX ==> r == Err::<u64, QueueError>(
                QueueError::OrdinalsExhausted,
            ),
            find_device(old(self).queue(kind).entries(), device_id@) < 0 && old(self).queue(
                kind,
            ).next_ordinal() < u64::MAX ==> r == Ok::<u64, QueueError>(
                old(self).queue(kind).next_ordinal(),
            ),
            r is Err ==> *final(self) == *old(self),
            r matches Ok(o) ==> {
                let (pre, post) = (old(self).queue(kind), final(self).queue(kind));
                &&& post.entries().len() == pre.entries().len() + 1
                &&& post.entries().drop_last() == pre.entries()
                &&& new_entry(device_id@, text_of(source), text_of(target), post.entries().last(), o)
                &&& post.next_ordinal() == o + 1
            },
            kind != QueueKind::Mount ==> final(self).mount == old(self).mount,
            kind != QueueKind::Launch ==> final(self).launch == old(self).launch,
    {
        match kind {
            QueueKind::Mount => self.mount.enqueue(device_id, source, target),
            QueueKind::Launch => self.launch.enqueue(device_id, source, target),
        }
    }

    /// `OrdinalQueue::query_status` on the queue of `kind`; the other is untouched.
    pub fn query_status(&mut self, kind: QueueKind, device_id: &str) -> (r: QueueStatus)
        requires
            old(self).wf(),
        ensures
            final(self).wf(),
            final(self).queue(kind).next_ordinal() == old(self).queue(kind).next_ordinal(),
            answers(old(self).queue(kind).entries(), final(self).queue(kind).entries(), device_id@, r),
            kind != QueueKind::Mount ==> final(self).mount == old(self).mount,
            kind != QueueKind::Launch ==> final(self).launch == old(self).launch,
    {
        match kind {
            QueueKind::Mount => self.mount.query_status(device_id),
            QueueKind::Launch => self.launch.query_status(device_id),
        }
    }

    /// Drops every entry of `kind`, as is done when the process starts.
    pub fn clear(&mut self, kind: QueueKind)
        requires
            old(self).wf(),
        ensures
            final(self).wf(),
            final(self).queue(kind).entries().len() == 0,
            final(self).queue(kind).next_ordinal() == old(self).queue(kind).next_ordinal(),
            kind != QueueKind::Mount ==> final(self).mount == old(self).mount,
            kind != QueueKind::Launch ==> final(self).launch == old(self).launch,
    {
        match kind {
            QueueKind::Mount => self.mount.clear(),
            QueueKind::Launch => self.launch.clear(),
        }
    }
}

/// In a well-formed queue the stored ordinals grow with the position and
/// stay below the ordinal that the next insertion receives, and no device
/// has two entries.
pub proof fn lemma_stored_ordinals(q: OrdinalQueue)
    requires
        q.wf(),
    ensures
        forall|i: int, j: int|
            0 <= i < j < q.entries().len() ==> #[trigger] q.entries()[i].ordinal
                < #[trigger] q.entries()[j].ordinal,
        forall|i: int| 0 <= i < q.entries().len() ==> #[trigger] q.entries()[i].ordinal < q.next_ordinal(),
        forall|i: int, j: int|
            0 <= i < j < q.entries().len() ==> #[trigger] q.entries()[i].device_id@
                != #[trigger] q.entries()[j].device_id@,
{
}

/// An insertion for another device, with an ordinal no smaller than the
/// next one, leaves every earlier entry where it was: it is found at the
/// same index, and the pending entries ahead of it are the same.
pub proof fn lemma_later_insert_keeps_position(q: OrdinalQueue, e: QueueEntry, d: Seq<char>)
    requires
        q.wf(),
        e.ordinal >= q.next_ordinal(),
        e.device_id@ != d,
    ensures
        find_device(q.entries().push(e), d) == find_device(q.entries(), d),
        find_device(q.entries(), d) >= 0 ==> pending_below(
            q.entries().push(e),
            q.entries()[find_device(q.entries(), d)].ordinal,
        ) == pending_below(q.entries(), q.entries()[find_device(q.entries(), d)].ordinal),
{
    let s = q.entries();
    let t = s.push(e);
    assert(t.drop_last() == s);
    lemma_find_device_found(s, d);
}

/// One successful insertion took the queue from `pre` to `post` and returned `o`.
pub open spec fn handed_out(pre: OrdinalQueue, post: OrdinalQueue, o: u64) -> bool {
    o == pre.next_ordinal() && post.next_ordinal() == o + 1
}

/// The ordinals returned by successive insertions into one queue grow
/// strictly, in the order of the calls.
pub proof fn lemma_ordinals_follow_call_order(states: Seq<OrdinalQueue>, ords: Seq<u64>)
    requires
        states.len() == ords.len() + 1,
        forall|k: int| 0 <= k < ords.len() ==> handed_out(states[k], #[trigger] states[k + 1], ords[k]),
    ensures
        forall|i: int, j: int| 0 <= i < j < ords.len() ==> ords[i] < ords[j],
{
    assert forall|i: int, j: int| 0 <= i < j < ords.len() implies ords[i] < ords[j] by {
        lemma_next_ordinal_grows(states, ords, i + 1, j);
        assert(handed_out(states[i], states[i + 1], ords[i]));
        assert(handed_out(states[j], states[j + 1], ords[j]));
    }
}

proof fn lemma_next_ordinal_grows(states: Seq<OrdinalQueue>, ords: Seq<u64>, a: int, b: int)
    requires
        states.len() == ords.len() + 1,
        forall|k: int| 0 <= k < ords.len() ==> handed_out(states[k], #[trigger] states[k + 1], ords[k]),
        0 <= a <= b < states.len(),
    ensures
        states[a].next_ordinal() <= states[b].next_ordinal(),
    decreases b - a,
{
    if a < b {
        lemma_next_ordinal_grows(states, ords, a, b - 1);
        let k = b - 1;
        assert(handed_out(states[k], states[k + 1], ords[k]));
    }
}

/// A failed entry is reported once: the query right after the one that
/// reported the failure finds nothing for that device.
pub proof fn lemma_failure_reported_once(
    q0: OrdinalQueue,
    q1: OrdinalQueue,
    q2: OrdinalQueue,
    d: Seq<char>,
    r1: QueueStatus,
    r2: QueueStatus,
)
    requires
        q0.wf(),
        answers(q0.entries(), q1.entries(), d, r1),
        r1 is Failed,
        answers(q1.entries(), q2.entries(), d, r2),
    ensures
        r2 is NotQueued,
        q2.entries() == q1.entries(),
{
    let s = q0.entries();
    let i = find_device(s, d);
    lemma_find_device_found(s, d);
    assert(i >= 0);
    let t = s.remove(i);
    assert forall|k: int| 0 <= k < t.len() implies #[trigger] t[k].device_id@ != d by {
        let k0 = if k < i { k } else { k + 1 };
        assert(t[k] == s[k0]);
        assert(s[k0].device_id@ != s[i].device_id@);
    }
    lemma_find_device_none(t, d);
}

/// A device that no entry carries is not found.
proof fn lemma_find_device_none(s: Seq<QueueEntry>, d: Seq<char>)
    requires
        forall|k: int| 0 <= k < s.len() ==> #[trigger] s[k].device_id@ != d,
    ensures
        find_device(s, d) == -1,
    decreases s.len(),
{
    if s.len() > 0 {
        assert(s[s.len() - 1].device_id@ != d);
        assert forall|k: int| 0 <= k < s.drop_last().len() implies #[trigger] s.drop_last()[k].device_id@ != d by {
            assert(s.drop_last()[k] == s[k]);
        }
        lemma_find_device_none(s.drop_last(), d);
    }
}

/// When `d` has no entry, no entry carries `d`.
proof fn lemma_find_device_absent(s: Seq<QueueEntry>, d: Seq<char>)
    requires
        find_device(s, d) < 0,
    ensures
        forall|i: int| 0 <= i < s.len() ==> #[trigger] s[i].device_id@ != d,
    decreases s.len(),
{
    if s.len() > 0 {
        lemma_find_device_absent(s.drop_last(), d);
        assert forall|i: int| 0 <= i < s.len() implies #[trigger] s[i].device_id@ != d by {
            if i < s.len() - 1 {
                assert(s.drop_last()[i] == s[i]);
            }
        }
    }
}

/// `find_device` yields -1 or the index of an entry that carries `d`.
proof fn lemma_find_device_found(s: Seq<QueueEntry>, d: Seq<char>)
    ensures
        -1 <= find_device(s, d) < s.len(),
        find_device(s, d) >= 0 ==> s[find_device(s, d)].device_id@ == d,
    decreases s.len(),
{
    if s.len() > 0 {
        lemma_find_device_found(s.drop_last(), d);
    }
}

} // verus!

//! The queue of developer-disk-image mounts, as the request handlers see it.

use vstd::prelude::*;
use crate::queue::{answers, QueueError, QueueKind, QueueStatus, QueueStore};

verus! {

/// Where a device stands in the mount queue.
#[derive(Debug)]
pub enum MountQueueInfo {
    Position(usize),
    InProgress,
    NotInQueue,
    Error(String),
    ServerError,
}

/// The mount-queue answer for a status.
pub open spec fn mount_info_of(s: QueueStatus) -> MountQueueInfo {
    match s {
        QueueStatus::NotQueued => MountQueueInfo::NotInQueue,
        QueueStatus::QueuedAt(p) => MountQueueInfo::Position(p),
        QueueStatus::InProgress => MountQueueInfo::InProgress,
        QueueStatus::Failed(m) => MountQueueInfo::Error(m),
    }
}

/// Where `udid` stands in the mount queue; a failure is reported once and
/// then forgotten.
pub fn get_queue_info(store: &mut QueueStore, udid: &str) -> (r: MountQueueInfo)
    requires
        old(store).wf(),
    ensures
        final(store).wf(),
        final(store).launch == old(store).launch,
        final(store).mount.next_ordinal() == old(store).mount.next_ordinal(),
        exists|s: QueueStatus|
            #[trigger] answers(old(store).mount.entries(), final(store).mount.entries(), udid@, s)
                && r == mount_info_of(s),
{
    let s = store.query_status(QueueKind::Mount, udid);
    match s {
        QueueStatus::NotQueued => MountQueueInfo::NotInQueue,
        QueueStatus::QueuedAt(p) => MountQueueInfo::Position(p),
        QueueStatus::InProgress => MountQueueInfo::InProgress,
        QueueStatus::Failed(m) => MountQueueInfo::Error(m),
    }
}

/// Queues a mount for `udid`, requested from `ip`; returns its ordinal.
pub fn add_to_queue(store: &mut QueueStore, udid: &str, ip: String) -> (r: Result<u64, QueueError>)
    requires
        old(store).wf(),
    ensures
        final(store).wf(),
        final(store).launch == old(store).launch,
        r is Err ==> *final(store) == *old(store),
        r is Ok <==> (crate::queue::find_device(old(store).mount.entries(), udid@) < 0
            && old(store).mount.next_ordinal() < u64::MAX),
        r matches Ok(o) ==> {
            &&& o == old(store).mount.next_ordinal()
            &&& final(store).mount.next_ordinal() == o + 1
            &&& final(store).mount.entries().len() == old(store).mount.entries().len() + 1
            &&& final(store).mount.entries().drop_last() == old(store).mount.entries()
            &&& crate::queue::new_entry(udid@, Some(ip@), None, final(store).mount.entries().last(), o)
        },
{
    store.enqueue(QueueKind::Mount, udid, Some(ip), None)
}

/// Empties the mount queue.
pub fn empty(store: &mut QueueStore)
    requires
        old(store).wf(),
    ensures
        final(store).wf(),
        final(store).mount.entries().len() == 0,
        final(store).mount.next_ordinal() == old(store).mount.next_ordinal(),
        final(store).launch == old(store).launch,
{
    store.clear(QueueKind::Mount)
}

} // verus!

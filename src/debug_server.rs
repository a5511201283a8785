//! The queue of app launches, as the request handlers see it.

use vstd::prelude::*;
use crate::queue::{answers, QueueError, QueueKind, QueueStatus, QueueStore};

verus! {

/// Where a device stands in the launch queue.
#[derive(Debug)]
pub enum LaunchQueueInfo {
    Position(usize),
    InProgress,
    NotInQueue,
    Error(String),
    ServerError,
}

/// The launch-queue answer for a status.
pub open spec fn launch_info_of(s: QueueStatus) -> LaunchQueueInfo {
    match s {
        QueueStatus::NotQueued => LaunchQueueInfo::NotInQueue,
        QueueStatus::QueuedAt(p) => LaunchQueueInfo::Position(p),
        QueueStatus::InProgress => LaunchQueueInfo::InProgress,
        QueueStatus::Failed(m) => LaunchQueueInfo::Error(m),
    }
}

/// Where `udid` stands in the launch queue; a failure is reported once and
/// then forgotten.
pub fn get_queue_info(store: &mut QueueStore, udid: &str) -> (r: LaunchQueueInfo)
    requires
        old(store).wf(),
    ensures
        final(store).wf(),
        final(store).mount == old(store).mount,
        final(store).launch.next_ordinal() == old(store).launch.next_ordinal(),
        exists|s: QueueStatus|
            #[trigger] answers(old(store).launch.entries(), final(store).launch.entries(), udid@, s)
                && r == launch_info_of(s),
{
    let s = store.query_status(QueueKind::Launch, udid);
    match s {
        QueueStatus::NotQueued => LaunchQueueInfo::NotInQueue,
        QueueStatus::QueuedAt(p) => LaunchQueueInfo::Position(p),
        QueueStatus::InProgress => LaunchQueueInfo::InProgress,
        QueueStatus::Failed(m) => LaunchQueueInfo::Error(m),
    }
}

/// Queues a launch of `bundle_id` on `udid`, requested from `ip`; returns
/// its ordinal.
pub fn add_to_queue(store: &mut QueueStore, udid: &str, ip: String, bundle_id: &str) -> (r: Result<
    u64,
    QueueError,
>)
    requires
        old(store).wf(),
    ensures
        final(store).wf(),
        final(store).mount == old(store).mount,
        r is Err ==> *final(store) == *old(store),
        r is Ok <==> (crate::queue::find_device(old(store).launch.entries(), udid@) < 0
            && old(store).launch.next_ordinal() < u64::MAX),
        r matches Ok(o) ==> {
            &&& o == old(store).launch.next_ordinal()
            &&& final(store).launch.next_ordinal() == o + 1
            &&& final(store).launch.entries().len() == old(store).launch.entries().len() + 1
            &&& final(store).launch.entries().drop_last() == old(store).launch.entries()
            &&& crate::queue::new_entry(
                udid@,
                Some(ip@),
                Some(bundle_id@),
                final(store).launch.entries().last(),
                o,
            )
        },
{
    let b = bundle_id.to_owned();
    store.enqueue(QueueKind::Launch, udid, Some(ip), Some(b))
}

/// Empties the launch queue.
pub fn empty(store: &mut QueueStore)
    requires
        old(store).wf(),
    ensures
        final(store).wf(),
        final(store).launch.entries().len() == 0,
        final(store).launch.next_ordinal() == old(store).launch.next_ordinal(),
        final(store).mount == old(store).mount,
{
    store.clear(QueueKind::Launch)
}

} // verus!

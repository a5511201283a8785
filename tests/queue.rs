use jitstreamer::debug_server::{self, LaunchQueueInfo};
use jitstreamer::mount::{self, MountQueueInfo};
use jitstreamer::queue::{EntryStatus, OrdinalQueue, QueueError, QueueKind, QueueStatus, QueueStore};
use jitstreamer::retry::{InsertRetry, RetryStep, BUSY_BACKOFF_MS, INSERT_ATTEMPTS};

#[test]
fn ordinals_increase_in_call_order() {
    let mut q = OrdinalQueue::new();
    let mut last = 0u64;
    for d in ["A", "B", "C", "D", "E"] {
        let o = q.enqueue(d, None, None).unwrap();
        assert!(o > last);
        last = o;
    }
    assert_eq!(last, 5);
    assert_eq!(q.len(), 5);
}

#[test]
fn ordinals_not_reused_after_clear() {
    let mut q = OrdinalQueue::new();
    assert_eq!(q.enqueue("A", None, None), Ok(1));
    assert_eq!(q.enqueue("B", None, None), Ok(2));
    q.clear();
    assert_eq!(q.len(), 0);
    assert_eq!(q.enqueue("A", None, None), Ok(3));
}

#[test]
fn duplicate_device_refused() {
    let mut q = OrdinalQueue::new();
    assert_eq!(q.enqueue("A", None, None), Ok(1));
    assert_eq!(q.enqueue("A", None, None), Err(QueueError::AlreadyQueued));
    assert_eq!(q.len(), 1);
    assert_eq!(q.enqueue("B", None, None), Ok(2));
}

#[test]
fn position_counts_pending_with_smaller_ordinal() {
    let mut q = OrdinalQueue::new();
    for d in ["A", "B", "C", "D"] {
        q.enqueue(d, None, None).unwrap();
    }
    assert!(q.set_status("B", EntryStatus::InProgress));
    assert!(matches!(q.query_status("A"), QueueStatus::QueuedAt(0)));
    assert!(matches!(q.query_status("B"), QueueStatus::InProgress));
    assert!(matches!(q.query_status("C"), QueueStatus::QueuedAt(1)));
    assert!(matches!(q.query_status("D"), QueueStatus::QueuedAt(2)));
    assert!(matches!(q.query_status("Z"), QueueStatus::NotQueued));
    assert!(q.remove("A"));
    assert!(matches!(q.query_status("D"), QueueStatus::QueuedAt(1)));
}

#[test]
fn failure_reported_once() {
    let mut q = OrdinalQueue::new();
    q.enqueue("A", None, None).unwrap();
    q.enqueue("B", None, None).unwrap();
    assert!(q.set_status("A", EntryStatus::Error("image not found".to_string())));
    match q.query_status("A") {
        QueueStatus::Failed(m) => assert_eq!(m, "image not found"),
        other => panic!("unexpected {:?}", other),
    }
    assert!(matches!(q.query_status("A"), QueueStatus::NotQueued));
    assert!(matches!(q.query_status("A"), QueueStatus::NotQueued));
    assert!(matches!(q.query_status("B"), QueueStatus::QueuedAt(0)));
}

#[test]
fn set_status_and_remove_absent_device() {
    let mut q = OrdinalQueue::new();
    assert!(!q.set_status("A", EntryStatus::InProgress));
    assert!(!q.remove("A"));
}

#[test]
fn store_keeps_kinds_apart() {
    let mut s = QueueStore::new();
    assert_eq!(mount::add_to_queue(&mut s, "ABCD", "10.0.0.2".to_string()), Ok(1));
    assert_eq!(debug_server::add_to_queue(&mut s, "EFGH", "10.0.0.3".to_string(), "com.example.app"), Ok(1));
    assert_eq!(debug_server::add_to_queue(&mut s, "ABCD", "10.0.0.2".to_string(), "com.example.app"), Ok(2));
    assert!(matches!(mount::get_queue_info(&mut s, "ABCD"), MountQueueInfo::Position(0)));
    assert!(matches!(mount::get_queue_info(&mut s, "EFGH"), MountQueueInfo::NotInQueue));
    assert!(matches!(debug_server::get_queue_info(&mut s, "ABCD"), LaunchQueueInfo::Position(1)));
    mount::empty(&mut s);
    assert!(matches!(mount::get_queue_info(&mut s, "ABCD"), MountQueueInfo::NotInQueue));
    assert!(matches!(debug_server::get_queue_info(&mut s, "EFGH"), LaunchQueueInfo::Position(0)));
    debug_server::empty(&mut s);
    assert!(matches!(debug_server::get_queue_info(&mut s, "EFGH"), LaunchQueueInfo::NotInQueue));
    assert_eq!(s.enqueue(QueueKind::Launch, "EFGH", None, None), Ok(3));
}

#[test]
fn queue_info_in_progress_and_error() {
    let mut s = QueueStore::new();
    mount::add_to_queue(&mut s, "ABCD", "10.0.0.2".to_string()).unwrap();
    debug_server::add_to_queue(&mut s, "ABCD", "10.0.0.2".to_string(), "com.example.app").unwrap();
    assert!(s.mount.set_status("ABCD", EntryStatus::InProgress));
    assert!(s.launch.set_status("ABCD", EntryStatus::InProgress));
    assert!(matches!(mount::get_queue_info(&mut s, "ABCD"), MountQueueInfo::InProgress));
    assert!(matches!(debug_server::get_queue_info(&mut s, "ABCD"), LaunchQueueInfo::InProgress));
    assert!(s.launch.set_status("ABCD", EntryStatus::Error("launch failed".to_string())));
    match debug_server::get_queue_info(&mut s, "ABCD") {
        LaunchQueueInfo::Error(m) => assert_eq!(m, "launch failed"),
        other => panic!("unexpected {:?}", other),
    }
    assert!(matches!(debug_server::get_queue_info(&mut s, "ABCD"), LaunchQueueInfo::NotInQueue));
    assert!(s.mount.set_status("ABCD", EntryStatus::Error("mount failed".to_string())));
    assert!(matches!(mount::get_queue_info(&mut s, "ABCD"), MountQueueInfo::Error(_)));
    assert!(matches!(mount::get_queue_info(&mut s, "ABCD"), MountQueueInfo::NotInQueue));
}

fn insert_with_busy(q: &mut OrdinalQueue, device: &str, busy_first: u32) -> Result<u64, RetryStep> {
    let mut retry = InsertRetry::new();
    let mut attempt = 0u32;
    loop {
        let busy = attempt < busy_first;
        attempt += 1;
        match retry.record(busy) {
            RetryStep::Inserted => return Ok(q.enqueue(device, None, None).unwrap()),
            RetryStep::WaitThenRetry(ms) => assert_eq!(ms, BUSY_BACKOFF_MS),
            RetryStep::GiveUp => return Err(RetryStep::GiveUp),
        }
    }
}

#[test]
fn busy_store_then_success_still_inserts() {
    for k in 0..INSERT_ATTEMPTS {
        let mut q = OrdinalQueue::new();
        q.enqueue("first", None, None).unwrap();
        assert_eq!(insert_with_busy(&mut q, "ABCD", k), Ok(2));
    }
}

#[test]
fn five_busy_answers_give_up() {
    let mut q = OrdinalQueue::new();
    assert_eq!(insert_with_busy(&mut q, "ABCD", 5), Err(RetryStep::GiveUp));
    assert_eq!(q.len(), 0);
    let mut retry = InsertRetry::new();
    let steps: Vec<RetryStep> = (0..5).map(|_| retry.record(true)).collect();
    assert_eq!(
        steps,
        vec![
            RetryStep::WaitThenRetry(100),
            RetryStep::WaitThenRetry(100),
            RetryStep::WaitThenRetry(100),
            RetryStep::WaitThenRetry(100),
            RetryStep::GiveUp
        ]
    );
}

#[test]
fn later_insert_keeps_earlier_position() {
    let mut s = QueueStore::new();
    debug_server::add_to_queue(&mut s, "A", "1".to_string(), "x").unwrap();
    debug_server::add_to_queue(&mut s, "B", "2".to_string(), "x").unwrap();
    assert!(matches!(debug_server::get_queue_info(&mut s, "B"), LaunchQueueInfo::Position(1)));
    debug_server::add_to_queue(&mut s, "C", "3".to_string(), "x").unwrap();
    assert!(matches!(debug_server::get_queue_info(&mut s, "B"), LaunchQueueInfo::Position(1)));
    assert!(matches!(debug_server::get_queue_info(&mut s, "C"), LaunchQueueInfo::Position(2)));
}

#[test]
fn ordinals_not_reused_after_purge_or_empty() {
    let mut s = QueueStore::new();
    assert_eq!(mount::add_to_queue(&mut s, "A", "1".to_string()), Ok(1));
    assert!(s.mount.set_status("A", EntryStatus::Error("boom".to_string())));
    assert!(matches!(mount::get_queue_info(&mut s, "A"), MountQueueInfo::Error(_)));
    assert_eq!(mount::add_to_queue(&mut s, "A", "1".to_string()), Ok(2));
    mount::empty(&mut s);
    assert_eq!(mount::add_to_queue(&mut s, "A", "1".to_string()), Ok(3));
}

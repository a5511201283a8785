use jitstreamer::heartbeat::{
    HeartbeatCache, KeepAlive, KeepAliveEvent, KeepAliveStep, SendRequest, FIRST_INTERVAL,
};

#[test]
fn store_replaces_and_returns_old_handle() {
    let mut c: HeartbeatCache<u32> = HeartbeatCache::new();
    assert_eq!(c.handle(SendRequest::Store(("D1".to_string(), 1))), None);
    assert_eq!(c.handle(SendRequest::Store(("D2".to_string(), 2))), None);
    assert_eq!(c.handle(SendRequest::Store(("D1".to_string(), 3))), Some(1));
    assert_eq!(c.len(), 2);
    assert_eq!(c.handle(SendRequest::Kill("D1".to_string())), Some(3));
    assert!(!c.contains("D1"));
    assert!(c.contains("D2"));
    assert_eq!(c.len(), 1);
}

#[test]
fn kill_absent_device_is_noop() {
    let mut c: HeartbeatCache<u32> = HeartbeatCache::new();
    assert_eq!(c.handle(SendRequest::Kill("D1".to_string())), None);
    assert_eq!(c.len(), 0);
    c.handle(SendRequest::Store(("D2".to_string(), 7)));
    assert_eq!(c.handle(SendRequest::Kill("D1".to_string())), None);
    assert_eq!(c.len(), 1);
    assert!(c.contains("D2"));
}

#[test]
fn interleaving_keeps_one_live_handle_per_device() {
    let mut c: HeartbeatCache<u32> = HeartbeatCache::new();
    let mut stopped: Vec<u32> = Vec::new();
    let script: Vec<SendRequest<u32>> = vec![
        SendRequest::Store(("D1".to_string(), 10)),
        SendRequest::Store(("D2".to_string(), 20)),
        SendRequest::Store(("D1".to_string(), 11)),
        SendRequest::Kill("D3".to_string()),
        SendRequest::Store(("D1".to_string(), 12)),
        SendRequest::Kill("D2".to_string()),
        SendRequest::Kill("D2".to_string()),
        SendRequest::Store(("D3".to_string(), 30)),
    ];
    for msg in script {
        if let Some(h) = c.handle(msg) {
            stopped.push(h);
        }
    }
    assert_eq!(stopped, vec![10, 11, 20]);
    assert_eq!(c.len(), 2);
    assert!(c.contains("D1"));
    assert!(c.contains("D3"));
}

#[test]
fn keep_alive_loop_runs_until_cancelled() {
    let (mut k, first) = KeepAlive::new();
    assert_eq!(first, KeepAliveStep::AwaitRequest(FIRST_INTERVAL));
    assert_eq!(k.on_event(KeepAliveEvent::Request(Some(30))), KeepAliveStep::Acknowledge);
    assert_eq!(k.on_event(KeepAliveEvent::Acknowledged(true)), KeepAliveStep::CheckCancel);
    assert_eq!(k.on_event(KeepAliveEvent::Cancelled(false)), KeepAliveStep::AwaitRequest(30));
    assert_eq!(k.on_event(KeepAliveEvent::Request(Some(10))), KeepAliveStep::Acknowledge);
    assert_eq!(k.on_event(KeepAliveEvent::Acknowledged(true)), KeepAliveStep::CheckCancel);
    assert_eq!(k.on_event(KeepAliveEvent::Cancelled(true)), KeepAliveStep::Stop);
    assert_eq!(k.on_event(KeepAliveEvent::Request(Some(10))), KeepAliveStep::Stop);
}

#[test]
fn keep_alive_loop_stops_on_first_error() {
    let (mut k, _) = KeepAlive::new();
    assert_eq!(k.on_event(KeepAliveEvent::Request(None)), KeepAliveStep::Stop);
    let (mut k, _) = KeepAlive::new();
    assert_eq!(k.on_event(KeepAliveEvent::Request(Some(15))), KeepAliveStep::Acknowledge);
    assert_eq!(k.on_event(KeepAliveEvent::Acknowledged(false)), KeepAliveStep::Stop);
    assert_eq!(k.on_event(KeepAliveEvent::Cancelled(false)), KeepAliveStep::Stop);
}

use tokio::sync::oneshot;
use udp_probe::peer::PeerAddr;
use udp_probe::request_manager::RequestManager;

fn addr(port: u16) -> PeerAddr {
    PeerAddr::V4 { ipv4: 0x7f00_0001, port }
}

#[test]
fn new_table_is_empty() {
    let t: RequestManager<u32> = RequestManager::new();
    assert!(t.is_empty());
}

#[test]
fn register_then_unregister_empties() {
    let mut t: RequestManager<u32> = RequestManager::new();
    t.register(addr(1), 7);
    assert!(!t.is_empty());
    t.unregister(&addr(2));
    assert!(!t.is_empty());
    t.unregister(&addr(1));
    assert!(t.is_empty());
    t.unregister(&addr(1));
    assert!(t.is_empty());
}

#[test]
fn take_returns_latest_signal() {
    let mut t: RequestManager<u32> = RequestManager::new();
    t.register(addr(1), 1);
    t.register(addr(2), 2);
    t.register(addr(1), 3);
    assert_eq!(t.take(&addr(1)), Some(3));
    assert_eq!(t.take(&addr(1)), None);
    assert_eq!(t.take(&addr(2)), Some(2));
    assert!(t.is_empty());
}

#[test]
fn v4_and_v6_keys_are_distinct() {
    let mut t: RequestManager<u32> = RequestManager::new();
    let v6 = PeerAddr::V6 { ipv6: 0x7f00_0001, port: 1, flowinfo: 0, scope_id: 0 };
    t.register(addr(1), 1);
    t.register(v6, 2);
    assert_eq!(t.take(&v6), Some(2));
    assert_eq!(t.take(&addr(1)), Some(1));
    assert_eq!(v6.port(), 1);
}

#[test]
fn notify_resolves_then_next_register_stays_pending() {
    let mut t = RequestManager::new();
    let (tx1, mut rx1) = oneshot::channel::<bool>();
    t.register(addr(9), tx1);
    assert!(t.notify(addr(9), true));
    assert_eq!(rx1.try_recv(), Ok(true));
    assert!(t.is_empty());

    let (tx2, mut rx2) = oneshot::channel::<bool>();
    t.register(addr(9), tx2);
    assert_eq!(rx2.try_recv(), Err(oneshot::error::TryRecvError::Empty));
    assert!(t.notify(addr(9), false));
    assert_eq!(rx2.try_recv(), Ok(false));
}

#[test]
fn second_register_orphans_first_signal() {
    let mut t = RequestManager::new();
    let (tx1, mut rx1) = oneshot::channel::<bool>();
    let (tx2, mut rx2) = oneshot::channel::<bool>();
    t.register(addr(5), tx1);
    t.register(addr(5), tx2);
    assert!(t.notify(addr(5), true));
    assert_eq!(rx2.try_recv(), Ok(true));
    assert!(rx1.try_recv().is_err());
    assert!(!t.notify(addr(5), true));
    assert!(rx1.try_recv().is_err());
}

#[test]
fn notify_without_entry_is_a_no_op() {
    let mut t = RequestManager::new();
    let (tx, mut rx) = oneshot::channel::<bool>();
    t.register(addr(1), tx);
    assert!(!t.notify(addr(2), true));
    assert!(!t.is_empty());
    assert_eq!(rx.try_recv(), Err(oneshot::error::TryRecvError::Empty));
}

#[test]
fn notify_after_receiver_dropped_still_removes() {
    let mut t = RequestManager::new();
    let (tx, rx) = oneshot::channel::<bool>();
    t.register(addr(1), tx);
    drop(rx);
    assert!(t.notify(addr(1), true));
    assert!(t.is_empty());
}

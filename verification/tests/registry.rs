use udp_server::addr::PeerAddr;
use udp_server::registry::PeerTable;

fn v4(port: u16) -> PeerAddr {
    PeerAddr::V4 { ip4: 0x7f00_0001, port }
}

fn v6(port: u16) -> PeerAddr {
    PeerAddr::V6 { ip6: 1, port, flowinfo: 0, scope_id: 0 }
}

fn sorted(mut v: Vec<PeerAddr>) -> Vec<u16> {
    let mut ports: Vec<u16> = v.drain(..).map(|a| a.port()).collect();
    ports.sort();
    ports
}

#[test]
fn peer_addr_family_and_port() {
    assert!(v4(80).is_ipv4());
    assert!(!v4(80).is_ipv6());
    assert!(v6(443).is_ipv6());
    assert!(!v6(443).is_ipv4());
    assert_eq!(v4(80).port(), 80);
    assert_eq!(v6(443).port(), 443);
    assert_ne!(v4(80), v4(81));
    assert_ne!(
        PeerAddr::V6 { ip6: 1, port: 1, flowinfo: 0, scope_id: 0 },
        PeerAddr::V6 { ip6: 1, port: 1, flowinfo: 0, scope_id: 2 }
    );
}

#[test]
fn new_table_is_empty() {
    let t: PeerTable<u32> = PeerTable::new(3);
    assert_eq!(t.socket_id(), 3);
    assert!(!t.contains(&v4(1)));
    assert_eq!(t.last_recv_sec(&v4(1)), None);
    assert!(t.get(&v4(1)).is_none());
    assert!(t.idle_addrs(1_000, 0).is_empty());
}

#[test]
fn touch_unknown_address_changes_nothing() {
    let mut t: PeerTable<u32> = PeerTable::new(0);
    assert!(!t.touch(&v4(1), 10, true));
    assert!(!t.contains(&v4(1)));
}

#[test]
fn register_then_lookup() {
    let mut t: PeerTable<u32> = PeerTable::new(0);
    t.register(v4(1), 11, 100);
    t.register(v6(1), 22, 200);
    assert!(t.contains(&v4(1)));
    assert!(t.contains(&v6(1)));
    assert_eq!(t.get(&v4(1)), Some(&11));
    assert_eq!(t.get(&v6(1)), Some(&22));
    assert_eq!(t.last_recv_sec(&v4(1)), Some(100));
    assert_eq!(t.last_recv_sec(&v6(1)), Some(200));
}

#[test]
fn tracked_touch_refreshes_time() {
    let mut t: PeerTable<u32> = PeerTable::new(0);
    t.register(v4(1), 11, 100);
    assert!(t.touch(&v4(1), 150, true));
    assert_eq!(t.last_recv_sec(&v4(1)), Some(150));
    assert_eq!(t.get(&v4(1)), Some(&11));
}

#[test]
fn untracked_touch_keeps_time() {
    let mut t: PeerTable<u32> = PeerTable::new(0);
    t.register(v4(1), 11, 100);
    assert!(t.touch(&v4(1), 150, false));
    assert_eq!(t.last_recv_sec(&v4(1)), Some(100));
}

#[test]
fn remove_returns_handle_and_forgets() {
    let mut t: PeerTable<u32> = PeerTable::new(0);
    t.register(v4(1), 11, 100);
    t.register(v4(2), 12, 100);
    t.register(v4(3), 13, 100);
    assert_eq!(t.remove(&v4(1)), Some(11));
    assert!(!t.contains(&v4(1)));
    assert_eq!(t.get(&v4(2)), Some(&12));
    assert_eq!(t.get(&v4(3)), Some(&13));
    assert_eq!(t.remove(&v4(1)), None);
}

#[test]
fn idle_addrs_exactly_the_silent_ones() {
    let mut t: PeerTable<u32> = PeerTable::new(0);
    t.register(v4(1), 1, 100);
    t.register(v4(2), 2, 180);
    t.register(v4(3), 3, 150);
    // At 200 with a 30 s timeout: 200-100=100 > 30 idle, 200-180=20 not, 200-150=50 idle.
    assert_eq!(sorted(t.idle_addrs(200, 30)), vec![1, 3]);
    // Exactly at the limit is not idle: 200-150 = 50 is not > 50.
    assert_eq!(sorted(t.idle_addrs(200, 50)), vec![1]);
    assert_eq!(sorted(t.idle_addrs(200, 1000)), Vec::<u16>::new());
}

#[test]
fn idle_check_does_not_overflow() {
    let mut t: PeerTable<u32> = PeerTable::new(0);
    t.register(v4(1), 1, i64::MIN);
    t.register(v4(2), 2, i64::MAX);
    assert_eq!(sorted(t.idle_addrs(i64::MAX, u64::MAX - 1)), vec![1]);
    assert_eq!(sorted(t.idle_addrs(i64::MAX, u64::MAX)), Vec::<u16>::new());
    assert_eq!(sorted(t.idle_addrs(i64::MIN, 0)), Vec::<u16>::new());
}

// One peer per address: a second datagram from the same address reuses the peer.
#[test]
fn second_datagram_reuses_peer() {
    let mut t: PeerTable<u32> = PeerTable::new(0);
    assert!(!t.touch(&v4(9), 10, true));
    t.register(v4(9), 42, 10);
    assert!(t.touch(&v4(9), 11, true));
    assert_eq!(t.get(&v4(9)), Some(&42));
}

// After removal, the next datagram registers a fresh peer at its arrival time.
#[test]
fn removed_peer_is_replaced() {
    let mut t: PeerTable<u32> = PeerTable::new(0);
    t.register(v4(9), 42, 10);
    t.remove(&v4(9));
    assert!(!t.touch(&v4(9), 20, true));
    t.register(v4(9), 43, 20);
    assert_eq!(t.get(&v4(9)), Some(&43));
    assert_eq!(t.last_recv_sec(&v4(9)), Some(20));
}

// A datagram from one address leaves the others alone.
#[test]
fn arrival_leaves_others() {
    let mut t: PeerTable<u32> = PeerTable::new(0);
    t.register(v4(1), 1, 10);
    t.register(v4(2), 2, 10);
    t.touch(&v4(1), 99, true);
    assert_eq!(t.last_recv_sec(&v4(2)), Some(10));
    assert_eq!(t.get(&v4(2)), Some(&2));
}

// With tracking, a peer just heard from is not idle at that moment.
#[test]
fn fresh_datagram_not_idle() {
    let mut t: PeerTable<u32> = PeerTable::new(0);
    t.register(v4(1), 1, 0);
    assert_eq!(sorted(t.idle_addrs(100, 10)), vec![1]);
    t.touch(&v4(1), 100, true);
    assert!(t.idle_addrs(100, 0).is_empty());
}

// An idle peer stays idle as time goes on.
#[test]
fn idle_persists() {
    let mut t: PeerTable<u32> = PeerTable::new(0);
    t.register(v4(1), 1, 0);
    assert_eq!(sorted(t.idle_addrs(11, 10)), vec![1]);
    assert_eq!(sorted(t.idle_addrs(500, 10)), vec![1]);
}

// The last-receive time over a sequence of datagrams.
#[test]
fn last_receive_time_over_sequence() {
    let mut t: PeerTable<u32> = PeerTable::new(0);
    assert!(!t.touch(&v4(1), 3, true));
    t.register(v4(1), 1, 3);
    for time in [4, 8, 20] {
        assert!(t.touch(&v4(1), time, true));
    }
    assert_eq!(t.last_recv_sec(&v4(1)), Some(20));
    for time in [30, 40] {
        assert!(t.touch(&v4(1), time, false));
    }
    assert_eq!(t.last_recv_sec(&v4(1)), Some(20));
}

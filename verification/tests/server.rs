use std::io::ErrorKind;
use std::sync::Arc;

use udp_server::addr::PeerAddr;
use udp_server::peer::{data_packet, delivery_result, UdpPeer};
use udp_server::socket::get_cpu_count;
use udp_server::udp_serv::{PeerRegistry, UdpServer, BUFF_MAX_SIZE};

const LOCALHOST: u32 = 0x7f00_0001;

fn local(port: u16) -> PeerAddr {
    PeerAddr::V4 { ip4: LOCALHOST, port }
}

fn tokio_socket(rt: &tokio::runtime::Runtime) -> Arc<tokio::net::UdpSocket> {
    Arc::new(rt.block_on(tokio::net::UdpSocket::bind("127.0.0.1:0")).unwrap())
}

#[test]
fn buffer_size_constant() {
    assert_eq!(BUFF_MAX_SIZE, 4096);
}

#[test]
fn new_server_has_one_context_per_cpu() {
    let s = UdpServer::<u32, ()>::new(&[local(0)], 5).unwrap();
    let n = get_cpu_count();
    let shared = s.contexts()[0].get_socket().local_addr();
    for c in s.contexts().iter().skip(1) {
        assert_eq!(c.get_socket().setup().addr, shared);
    }
    assert_eq!(s.contexts().len(), n);
    for (i, c) in s.contexts().iter().enumerate() {
        assert_eq!(c.get_id(), i);
        assert_eq!(c.id, i);
    }
    assert_eq!(s.peer_timeout_sec(), None);
    assert_eq!(*s.handler(), 5);
    assert!(Arc::ptr_eq(&s.handler(), &s.handler()));
    assert!(s.context(0).is_some());
    assert!(s.context(n).is_none());
}

#[test]
fn new_server_refuses_bad_address_count() {
    let rt = tokio::runtime::Runtime::new().unwrap();
    let _entered = rt.enter();
    assert!(UdpServer::<u32, ()>::new(&[], 5).is_err());
    assert!(UdpServer::<u32, ()>::new(&[local(1), local(2)], 5).is_err());
}

#[test]
fn set_peer_timeout() {
    let rt = tokio::runtime::Runtime::new().unwrap();
    let _entered = rt.enter();
    let s = UdpServer::<u32, ()>::new(&[local(0)], 5).unwrap();
    let n = s.contexts().len();
    let s = s.set_peer_timeout_sec(20);
    assert_eq!(s.peer_timeout_sec(), Some(20));
    assert_eq!(s.contexts().len(), n);
    assert_eq!(*s.handler(), 5);
}

#[test]
fn peer_new_and_getters() {
    let rt = tokio::runtime::Runtime::new().unwrap();
    let sock = tokio_socket(&rt);
    let (peer, _reader) = UdpPeer::new(4, sock.clone(), local(9000));
    assert_eq!(peer.get_socket_id(), 4);
    assert_eq!(peer.socket_id, 4);
    assert_eq!(peer.get_addr(), local(9000));
    assert!(Arc::ptr_eq(&peer.udp_sock, &sock));
}

#[test]
fn push_data_reaches_reader() {
    let rt = tokio::runtime::Runtime::new().unwrap();
    let (peer, mut reader) = UdpPeer::new(0, tokio_socket(&rt), local(1));
    peer.push_data(b"hello!".to_vec()).0.unwrap();
    assert_eq!(reader.try_recv().unwrap().unwrap(), b"hello!".to_vec());
}

#[test]
fn push_data_after_reader_dropped_fails() {
    let rt = tokio::runtime::Runtime::new().unwrap();
    let (peer, reader) = UdpPeer::new(0, tokio_socket(&rt), local(1));
    drop(reader);
    let err = peer.push_data(vec![1]).0.unwrap_err();
    assert_eq!(err.kind(), ErrorKind::Other);
}

#[test]
fn close_sends_timed_out() {
    let rt = tokio::runtime::Runtime::new().unwrap();
    let (peer, mut reader) = UdpPeer::new(0, tokio_socket(&rt), local(1));
    let receipt = peer.close();
    assert_eq!(receipt.addr(), local(1));
    let err = reader.try_recv().unwrap().unwrap_err();
    assert_eq!(err.kind(), ErrorKind::TimedOut);
    assert_eq!(err.to_string(), "udp peer need close");
}

#[test]
fn close_after_reader_dropped_is_harmless() {
    let rt = tokio::runtime::Runtime::new().unwrap();
    let (peer, reader) = UdpPeer::new(0, tokio_socket(&rt), local(1));
    drop(reader);
    peer.close();
}

#[test]
fn receive_creates_then_reuses_peer() {
    let rt = tokio::runtime::Runtime::new().unwrap();
    let sock = tokio_socket(&rt);
    let mut table = PeerRegistry::new(2);
    let (p1, r1) = table.receive_at(&sock, local(5), 100, true);
    assert!(r1.is_some());
    assert_eq!(p1.get_socket_id(), 2);
    assert_eq!(p1.get_addr(), local(5));
    assert!(Arc::ptr_eq(&p1.udp_sock, &sock));
    assert_eq!(table.last_recv_sec(&local(5)), Some(100));
    let (p2, r2) = table.receive_at(&sock, local(5), 130, true);
    assert!(r2.is_none());
    assert!(Arc::ptr_eq(&p1, &p2));
    assert_eq!(table.last_recv_sec(&local(5)), Some(130));
    // Data pushed to the returned peer reaches the first reader.
    let mut r1 = r1.unwrap();
    p2.push_data(vec![7, 8]).0.unwrap();
    assert_eq!(r1.try_recv().unwrap().unwrap(), vec![7, 8]);
}

#[test]
fn receive_without_tracking_keeps_time() {
    let rt = tokio::runtime::Runtime::new().unwrap();
    let sock = tokio_socket(&rt);
    let mut table = PeerRegistry::new(0);
    table.receive_at(&sock, local(5), 100, false);
    table.receive_at(&sock, local(5), 900, false);
    assert_eq!(table.last_recv_sec(&local(5)), Some(100));
}

#[test]
fn receive_after_removal_creates_fresh_peer() {
    let rt = tokio::runtime::Runtime::new().unwrap();
    let sock = tokio_socket(&rt);
    let mut table = PeerRegistry::new(0);
    let (p1, _r1) = table.receive_at(&sock, local(5), 100, true);
    assert!(table.remove(&local(5)).is_some());
    let (p2, r2) = table.receive_at(&sock, local(5), 200, true);
    assert!(r2.is_some());
    assert!(!Arc::ptr_eq(&p1, &p2));
}

#[test]
fn receive_uses_current_time() {
    let rt = tokio::runtime::Runtime::new().unwrap();
    let sock = tokio_socket(&rt);
    let mut table = PeerRegistry::new(0);
    let before = chrono::Utc::now().timestamp();
    table.receive(&sock, local(5), true);
    let after = chrono::Utc::now().timestamp();
    let t = table.last_recv_sec(&local(5)).unwrap();
    assert!(before <= t && t <= after);
}

#[test]
fn close_idle_closes_only_idle_peers() {
    let rt = tokio::runtime::Runtime::new().unwrap();
    let sock = tokio_socket(&rt);
    let mut table = PeerRegistry::new(0);
    let (_a, ra) = table.receive_at(&sock, local(1), 100, true);
    let (_b, rb) = table.receive_at(&sock, local(2), 190, true);
    let (mut ra, mut rb) = (ra.unwrap(), rb.unwrap());
    let closed: Vec<PeerAddr> = table.close_idle_at(200, 20).iter().map(|c| c.addr()).collect();
    assert_eq!(closed, vec![local(1)]);
    assert_eq!(ra.try_recv().unwrap().unwrap_err().kind(), ErrorKind::TimedOut);
    assert!(rb.try_recv().is_err());
}

#[test]
fn close_idle_now_spares_fresh_peers() {
    let rt = tokio::runtime::Runtime::new().unwrap();
    let sock = tokio_socket(&rt);
    let mut table = PeerRegistry::new(0);
    let (_a, ra) = table.receive(&sock, local(1), true);
    let mut ra = ra.unwrap();
    assert!(table.close_idle(3600).is_empty());
    assert!(ra.try_recv().is_err());
}

#[test]
fn with_listen_count_numbers_contexts() {
    let rt = tokio::runtime::Runtime::new().unwrap();
    let _entered = rt.enter();
    let s = UdpServer::<&str, u8>::with_listen_count(&[local(0)], "h", 3).unwrap();
    let ids: Vec<usize> = s.contexts().iter().map(|c| c.get_id()).collect();
    assert_eq!(ids, vec![0, 1, 2]);
    let port = s.contexts()[0].get_socket().local_addr().port();
    assert_ne!(port, 0);
    for c in s.contexts() {
        assert_eq!(c.get_socket().local_addr().port(), port);
        assert!(c.get_socket().setup().nonblocking);
    }
    assert_eq!(*s.handler(), "h");
    assert_eq!(s.peer_timeout_sec(), None);
}

#[test]
fn with_listen_count_zero_has_no_context() {
    let rt = tokio::runtime::Runtime::new().unwrap();
    let _entered = rt.enter();
    let s = UdpServer::<u32, ()>::with_listen_count(&[], 1, 0).unwrap();
    assert!(s.contexts().is_empty());
    assert!(s.context(0).is_none());
}

#[test]
fn context_registry_starts_empty() {
    let rt = tokio::runtime::Runtime::new().unwrap();
    let _entered = rt.enter();
    let s = UdpServer::<u32, ()>::with_listen_count(&[local(0)], 1, 1).unwrap();
    let ctx = s.context(0).unwrap().clone();
    let table = rt.block_on(async move {
        let guard = ctx.peers.lock().await;
        (guard.socket_id(), guard.contains(&local(1)))
    });
    assert_eq!(table, (0, false));
}

#[test]
fn with_listen_count_zero_ignores_addresses() {
    let s = UdpServer::<u32, ()>::with_listen_count(&[local(1), local(2)], 1, 0).unwrap();
    assert!(s.contexts().is_empty());
}

#[test]
fn delivery_result_maps_send_outcome() {
    assert!(delivery_result(Ok(())).is_ok());
    let err = delivery_result(Err(tokio::sync::mpsc::error::SendError(Ok(vec![1])))).unwrap_err();
    assert_eq!(err.kind(), ErrorKind::Other);
    assert_eq!(err.to_string(), "channel closed");
}

#[test]
fn data_packet_carries_buffer() {
    assert_eq!(data_packet(vec![1, 2, 3]).unwrap(), vec![1, 2, 3]);
}

#[test]
fn registry_peers_sit_under_their_addresses() {
    let rt = tokio::runtime::Runtime::new().unwrap();
    let sock = tokio_socket(&rt);
    let mut reg = PeerRegistry::new(6);
    for port in 1..5 {
        reg.receive_at(&sock, local(port), 10, true);
    }
    reg.remove(&local(2));
    for port in 1..5 {
        match reg.get(&local(port)) {
            Some(p) => {
                assert_eq!(p.get_addr(), local(port));
                assert_eq!(p.get_socket_id(), 6);
            }
            None => assert_eq!(port, 2),
        }
    }
}

#[test]
fn last_receive_time_follows_datagrams() {
    let rt = tokio::runtime::Runtime::new().unwrap();
    let sock = tokio_socket(&rt);
    let mut watched = PeerRegistry::new(0);
    let mut untracked = PeerRegistry::new(0);
    for t in [5, 9, 30] {
        watched.receive_at(&sock, local(1), t, true);
        untracked.receive_at(&sock, local(1), t, false);
    }
    assert_eq!(watched.last_recv_sec(&local(1)), Some(30));
    assert_eq!(untracked.last_recv_sec(&local(1)), Some(5));
    // Pushing data and closing leave the registry alone.
    let p = watched.get(&local(1)).unwrap().clone();
    let _ = p.push_data(vec![1]);
    p.close();
    assert_eq!(watched.last_recv_sec(&local(1)), Some(30));
}

#[test]
fn new_server_reports_address_errors() {
    let err = UdpServer::<u32, ()>::new(&[], 5).err().unwrap();
    assert_eq!(err.kind(), ErrorKind::Other);
    assert_eq!(err.to_string(), "no socket addresses could be resolved");
    let err = UdpServer::<u32, ()>::new(&[local(1), local(2)], 5).err().unwrap();
    assert_eq!(err.kind(), ErrorKind::Other);
    assert_eq!(err.to_string(), "more than one address resolved");
}

#[test]
fn close_signal_is_timed_out() {
    let err = udp_server::peer::close_signal().unwrap_err();
    assert_eq!(err.kind(), ErrorKind::TimedOut);
    assert_eq!(err.to_string(), "udp peer need close");
}

#[test]
fn pushes_arrive_in_order_and_record_the_handoff() {
    let rt = tokio::runtime::Runtime::new().unwrap();
    let (peer, mut reader) = UdpPeer::new(0, tokio_socket(&rt), local(1));
    for d in [vec![1u8], vec![2, 2], vec![3]] {
        let (result, _handoff) = peer.push_data(d);
        assert!(result.is_ok());
    }
    assert_eq!(reader.try_recv().unwrap().unwrap(), vec![1]);
    assert_eq!(reader.try_recv().unwrap().unwrap(), vec![2, 2]);
    assert_eq!(reader.try_recv().unwrap().unwrap(), vec![3]);
    assert!(reader.try_recv().is_err());
}

use std::io::ErrorKind;

use udp_server::addr::PeerAddr;
use udp_server::socket::{
    create_async_udp_socket, create_socket_with, create_udp_socket, create_udp_socket_list,
    get_cpu_count, pick_single_addr, socket_setup, AddrError, AddrFamily, SocketKind,
    SocketSetup, TransportProtocol, SOCKET_BUFFER_SIZE,
};

const LOCALHOST: u32 = 0x7f00_0001;

fn local(port: u16) -> PeerAddr {
    PeerAddr::V4 { ip4: LOCALHOST, port }
}

fn loopback6(port: u16) -> PeerAddr {
    PeerAddr::V6 { ip6: 1, port, flowinfo: 0, scope_id: 0 }
}

#[test]
fn cpu_count_is_positive_and_matches_num_cpus() {
    let n = get_cpu_count();
    assert!(n >= 1);
    assert_eq!(n, num_cpus::get());
}

#[test]
fn pick_single_addr_cases() {
    assert_eq!(pick_single_addr(&[]), Err(AddrError::NoAddress));
    assert_eq!(pick_single_addr(&[local(1)]), Ok(local(1)));
    assert_eq!(pick_single_addr(&[local(1), local(2)]), Err(AddrError::MoreThanOne));
}

#[test]
fn addr_error_messages() {
    assert_eq!(AddrError::NoAddress.message(), "no socket addresses could be resolved");
    assert_eq!(AddrError::MoreThanOne.message(), "more than one address resolved");
}

#[test]
fn socket_setup_cases() {
    assert_eq!(socket_setup(&[]), Err(AddrError::NoAddress));
    assert_eq!(socket_setup(&[local(1), local(2)]), Err(AddrError::MoreThanOne));
    let expected = SocketSetup {
        addr: local(7),
        family: AddrFamily::V4,
        kind: SocketKind::Datagram,
        protocol: TransportProtocol::Udp,
        reuse_address: true,
        reuse_port: true,
        send_buffer_size: 17_840_000,
        recv_buffer_size: 17_840_000,
        nonblocking: false,
    };
    assert_eq!(socket_setup(&[local(7)]), Ok(expected));
    assert_eq!(socket_setup(&[loopback6(7)]).unwrap().family, AddrFamily::V6);
    assert_eq!(SOCKET_BUFFER_SIZE, 1784 * 10000);
}

#[test]
fn create_socket_without_address_fails() {
    let err = create_udp_socket(&[]).err().unwrap();
    assert_eq!(err.kind(), ErrorKind::Other);
    assert_eq!(err.to_string(), "no socket addresses could be resolved");
}

#[test]
fn create_socket_with_two_addresses_fails() {
    let err = create_udp_socket(&[local(1), local(2)]).err().unwrap();
    assert_eq!(err.kind(), ErrorKind::Other);
    assert_eq!(err.to_string(), "more than one address resolved");
}

#[test]
fn create_socket_binds_and_configures() {
    let ls = create_udp_socket(&[local(0)]).unwrap();
    let sock = ls.socket();
    let bound = sock.local_addr().unwrap().as_socket().unwrap();
    assert!(bound.is_ipv4());
    assert_ne!(bound.port(), 0);
    assert_eq!(ls.local_addr(), local(bound.port()));
    assert!(sock.reuse_address().unwrap());
    assert!(sock.reuse_port().unwrap());
    assert!(!sock.nonblocking().unwrap());
    assert!(sock.send_buffer_size().unwrap() > 0);
    assert!(sock.recv_buffer_size().unwrap() > 0);
    assert_eq!(ls.setup(), socket_setup(&[local(0)]).unwrap());
}

#[test]
fn create_ipv6_socket() {
    if let Ok(ls) = create_udp_socket(&[loopback6(0)]) {
        assert!(ls.socket().local_addr().unwrap().as_socket().unwrap().is_ipv6());
        assert!(ls.local_addr().is_ipv6());
    }
}

#[test]
fn create_socket_with_custom_setup() {
    let setup = SocketSetup {
        reuse_port: false,
        send_buffer_size: 65536,
        ..socket_setup(&[local(0)]).unwrap()
    };
    let ls = create_socket_with(setup).unwrap();
    assert!(!ls.socket().reuse_port().unwrap());
    assert_eq!(ls.setup(), setup);
}

#[test]
fn async_socket_is_nonblocking() {
    let ls = create_async_udp_socket(&[local(0)]).unwrap();
    assert!(ls.socket().nonblocking().unwrap());
    assert!(ls.setup().nonblocking);
    assert!(create_async_udp_socket(&[]).is_err());
}

#[test]
fn several_sockets_share_one_port() {
    let list = create_udp_socket_list(&[local(0)], 3).unwrap();
    assert_eq!(list.len(), 3);
    let first = list[0].local_addr();
    assert_ne!(first.port(), 0);
    for s in &list[1..] {
        assert_eq!(s.setup().addr, first);
        assert_eq!(s.local_addr(), first);
        assert_eq!(
            s.socket().local_addr().unwrap().as_socket().unwrap().port(),
            first.port()
        );
    }
    for s in &list {
        assert!(s.socket().nonblocking().unwrap());
    }
}

#[test]
fn socket_list_of_zero_is_empty() {
    let list = create_udp_socket_list(&[], 0).unwrap();
    assert!(list.is_empty());
}

#[test]
fn socket_list_fails_on_bad_address_count() {
    assert_eq!(create_udp_socket_list(&[], 2).err().unwrap().kind(), ErrorKind::Other);
    assert!(create_udp_socket_list(&[local(1), local(2)], 1).is_err());
}

#[test]
fn socket_registers_with_tokio() {
    let rt = tokio::runtime::Runtime::new().unwrap();
    let _entered = rt.enter();
    let ls = create_async_udp_socket(&[local(0)]).unwrap();
    let port = ls.local_addr().port();
    let sock = tokio::net::UdpSocket::from_std(ls.socket().try_clone().unwrap().into()).unwrap();
    assert_eq!(sock.local_addr().unwrap().port(), port);
    let mut buf = [0u8; 16];
    let err = sock.try_recv_from(&mut buf).unwrap_err();
    assert_eq!(err.kind(), ErrorKind::WouldBlock);
}

#[test]
fn reported_addr_cases() {
    assert_eq!(udp_server::socket::reported_addr(Some(local(9))).unwrap(), local(9));
    let err = udp_server::socket::reported_addr(None).unwrap_err();
    assert_eq!(err.kind(), ErrorKind::Other);
    assert_eq!(err.to_string(), "socket is not bound to an IP address");
}

#[test]
fn async_socket_errors_carry_message() {
    let err = create_async_udp_socket(&[local(1), local(2)]).err().unwrap();
    assert_eq!(err.kind(), ErrorKind::Other);
    assert_eq!(err.to_string(), "more than one address resolved");
    let err = create_udp_socket_list(&[], 3).err().unwrap();
    assert_eq!(err.to_string(), "no socket addresses could be resolved");
}

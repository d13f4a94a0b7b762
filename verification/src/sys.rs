use vstd::prelude::*;

use crate::addr::PeerAddr;
use crate::socket::{AddrFamily, SocketKind, TransportProtocol};

verus! {

/// A record that a socket was created, with the domain, type and protocol
/// it was created with. Only [`new_socket`] makes one.
pub struct Created {
    on_socket: Ghost<socket2::Socket>,
    family: AddrFamily,
    kind: SocketKind,
    protocol: TransportProtocol,
}

impl Created {
    /// The socket the call was made on.
    pub closed spec fn socket(&self) -> socket2::Socket {
        self.on_socket@
    }

    pub closed spec fn family(&self) -> AddrFamily {
        self.family
    }

    pub closed spec fn kind(&self) -> SocketKind {
        self.kind
    }

    pub closed spec fn protocol(&self) -> TransportProtocol {
        self.protocol
    }
}

/// A record of the value `SO_REUSEADDR` was set to. Only
/// [`set_reuse_address`] makes one.
pub struct ReuseAddressSet {
    on_socket: Ghost<socket2::Socket>,
    on: bool,
}

impl ReuseAddressSet {
    /// The socket the call was made on.
    pub closed spec fn socket(&self) -> socket2::Socket {
        self.on_socket@
    }

    pub closed spec fn value(&self) -> bool {
        self.on
    }
}

/// A record of the value `SO_REUSEPORT` was set to. Only [`set_reuse_port`]
/// makes one.
pub struct ReusePortSet {
    on_socket: Ghost<socket2::Socket>,
    on: bool,
}

impl ReusePortSet {
    /// The socket the call was made on.
    pub closed spec fn socket(&self) -> socket2::Socket {
        self.on_socket@
    }

    pub closed spec fn value(&self) -> bool {
        self.on
    }
}

/// A record of the address a socket was bound to. Only [`bind`] makes one.
pub struct BoundTo {
    on_socket: Ghost<socket2::Socket>,
    addr: socket2::SockAddr,
}

impl BoundTo {
    /// The socket the call was made on.
    pub closed spec fn socket(&self) -> socket2::Socket {
        self.on_socket@
    }

    pub closed spec fn value(&self) -> socket2::SockAddr {
        self.addr
    }
}

/// A record of the size asked for `SO_SNDBUF` (the kernel may adjust it).
/// Only
/// [`set_send_buffer_size`] makes one.
pub struct SendBufferSet {
    on_socket: Ghost<socket2::Socket>,
    size: usize,
}

impl SendBufferSet {
    /// The socket the call was made on.
    pub closed spec fn socket(&self) -> socket2::Socket {
        self.on_socket@
    }

    pub closed spec fn value(&self) -> usize {
        self.size
    }
}

/// A record of the size asked for `SO_RCVBUF` (the kernel may adjust it).
/// Only
/// [`set_recv_buffer_size`] makes one.
pub struct RecvBufferSet {
    on_socket: Ghost<socket2::Socket>,
    size: usize,
}

impl RecvBufferSet {
    /// The socket the call was made on.
    pub closed spec fn socket(&self) -> socket2::Socket {
        self.on_socket@
    }

    pub closed spec fn value(&self) -> usize {
        self.size
    }
}

/// A record of the blocking mode a socket was set to (`true`: non-blocking).
/// Only [`set_nonblocking`] makes one.
pub struct BlockingSet {
    on_socket: Ghost<socket2::Socket>,
    nonblocking: bool,
}

impl BlockingSet {
    /// The socket the call was made on.
    pub closed spec fn socket(&self) -> socket2::Socket {
        self.on_socket@
    }

    pub closed spec fn value(&self) -> bool {
        self.nonblocking
    }
}

/// The options of a socket that the calls below set.
#[derive(Clone, Copy, Debug, PartialEq, Eq, Structural)]
pub enum ConfigItem {
    ReuseAddress,
    ReusePort,
    Bind,
    SendBuffer,
    RecvBuffer,
    Blocking,
}

/// A socket being configured, with the record of its creation and, for each
/// option, the record of the last call that set it on this socket (`None`
/// while no call has). Only the calls below change it, so no option can be
/// set on the socket without its record following.
pub struct SocketConfig {
    socket: socket2::Socket,
    created: Created,
    reuse_address: Option<ReuseAddressSet>,
    reuse_port: Option<ReusePortSet>,
    bound_to: Option<BoundTo>,
    send_buffer: Option<SendBufferSet>,
    recv_buffer: Option<RecvBufferSet>,
    blocking: Option<BlockingSet>,
}

impl SocketConfig {
    /// The socket itself.
    pub closed spec fn os_socket(&self) -> socket2::Socket {
        self.socket
    }

    pub closed spec fn created(&self) -> Created {
        self.created
    }

    pub closed spec fn reuse_address(&self) -> Option<ReuseAddressSet> {
        self.reuse_address
    }

    pub closed spec fn reuse_port(&self) -> Option<ReusePortSet> {
        self.reuse_port
    }

    pub closed spec fn bound_to(&self) -> Option<BoundTo> {
        self.bound_to
    }

    pub closed spec fn send_buffer(&self) -> Option<SendBufferSet> {
        self.send_buffer
    }

    pub closed spec fn recv_buffer(&self) -> Option<RecvBufferSet> {
        self.recv_buffer
    }

    pub closed spec fn blocking(&self) -> Option<BlockingSet> {
        self.blocking
    }

    /// A socket just created, with the record of its creation and no option
    /// set yet.
    pub(crate) fn new(socket: socket2::Socket, created: Created) -> (r: SocketConfig)
        requires
            created.socket() == socket,
        ensures
            r.os_socket() == socket && r.created() == created,
            r.reuse_address() is None && r.reuse_port() is None && r.bound_to() is None,
            r.send_buffer() is None && r.recv_buffer() is None && r.blocking() is None,
    {
        SocketConfig {
            socket,
            created,
            reuse_address: None,
            reuse_port: None,
            bound_to: None,
            send_buffer: None,
            recv_buffer: None,
            blocking: None,
        }
    }

    /// The socket itself.
    pub fn socket(&self) -> (r: &socket2::Socket)
        ensures
            *r == self.os_socket(),
    {
        &self.socket
    }
}

/// Whether `after` is `before` with only the record of `which` changed.
pub open spec fn others_kept(before: SocketConfig, after: SocketConfig, which: ConfigItem) -> bool {
    &&& after.os_socket() == before.os_socket()
    &&& after.created() == before.created()
    &&& which != ConfigItem::ReuseAddress ==> after.reuse_address() == before.reuse_address()
    &&& which != ConfigItem::ReusePort ==> after.reuse_port() == before.reuse_port()
    &&& which != ConfigItem::Bind ==> after.bound_to() == before.bound_to()
    &&& which != ConfigItem::SendBuffer ==> after.send_buffer() == before.send_buffer()
    &&& which != ConfigItem::RecvBuffer ==> after.recv_buffer() == before.recv_buffer()
    &&& which != ConfigItem::Blocking ==> after.blocking() == before.blocking()
}

/// `socket2::Socket::new` with the domain, type and protocol that `family`,
/// `kind` and `protocol` name, with the record of them. Whether it succeeds
/// depends on the operating system.
#[verifier::external_body]
pub(crate) fn new_socket(
    family: AddrFamily,
    kind: SocketKind,
    protocol: TransportProtocol,
) -> (r: std::io::Result<(socket2::Socket, Created)>)
    ensures
        r matches Ok(made) ==> made.1.family() == family && made.1.kind() == kind
            && made.1.protocol() == protocol && made.1.socket() == made.0,
{
    let domain = match family {
        AddrFamily::V4 => socket2::Domain::IPV4,
        AddrFamily::V6 => socket2::Domain::IPV6,
    };
    let ty = match kind { SocketKind::Datagram => socket2::Type::DGRAM };
    let proto = match protocol { TransportProtocol::Udp => socket2::Protocol::UDP };
    match socket2::Socket::new(domain, ty, Some(proto)) {
        Ok(socket) => {
            let made = Created { on_socket: Ghost(socket), family, kind, protocol };
            Ok((socket, made))
        },
        Err(e) => Err(e),
    }
}

/// `socket2::Socket::set_reuse_address` (`SO_REUSEADDR`) on the socket of
/// `c`, recording the value set. Whether it succeeds depends on the system.
#[verifier::external_body]
pub(crate) fn set_reuse_address(c: &mut SocketConfig, reuse: bool) -> (r: std::io::Result<()>)
    ensures
        r is Ok ==> others_kept(*old(c), *final(c), ConfigItem::ReuseAddress),
        r is Ok ==> final(c).reuse_address() is Some,
        r is Ok ==> final(c).reuse_address().unwrap().value() == reuse,
        r is Ok ==> final(c).reuse_address().unwrap().socket() == old(c).os_socket(),
        r is Err ==> *final(c) == *old(c),
{
    match c.socket.set_reuse_address(reuse) {
        Ok(()) => {
            c.reuse_address = Some(ReuseAddressSet { on_socket: Ghost(c.socket), on: reuse });
            Ok(())
        },
        Err(e) => Err(e),
    }
}

/// `socket2::Socket::set_reuse_port` (`SO_REUSEPORT`) on the socket of `c`,
/// recording the value set. Whether it succeeds depends on the system.
#[verifier::external_body]
pub(crate) fn set_reuse_port(c: &mut SocketConfig, reuse: bool) -> (r: std::io::Result<()>)
    ensures
        r is Ok ==> others_kept(*old(c), *final(c), ConfigItem::ReusePort),
        r is Ok ==> final(c).reuse_port() is Some,
        r is Ok ==> final(c).reuse_port().unwrap().value() == reuse,
        r is Ok ==> final(c).reuse_port().unwrap().socket() == old(c).os_socket(),
        r is Err ==> *final(c) == *old(c),
{
    match c.socket.set_reuse_port(reuse) {
        Ok(()) => {
            c.reuse_port = Some(ReusePortSet { on_socket: Ghost(c.socket), on: reuse });
            Ok(())
        },
        Err(e) => Err(e),
    }
}

/// What `socket2::SockAddr::from` gives for the IPv4 socket address with
/// address `ip4` and port `port`.
pub uninterp spec fn v4_sock_addr(ip4: u32, port: u16) -> socket2::SockAddr;

/// What `socket2::SockAddr::from` gives for the IPv6 socket address with
/// address `ip6`, port `port`, flow information `flowinfo` and scope
/// `scope_id`.
pub uninterp spec fn v6_sock_addr(ip6: u128, port: u16, flowinfo: u32, scope_id: u32) -> socket2::SockAddr;

/// `socket2::SockAddr::from` an IPv4 socket address built from its parts.
///
/// Trusted: the conversion fills a zeroed `sockaddr_in` from the parts
/// alone, so its result is a function of them, named `v4_sock_addr`.
#[verifier::external_body]
pub(crate) fn sock_addr_v4(ip4: u32, port: u16) -> (r: socket2::SockAddr)
    ensures
        r == v4_sock_addr(ip4, port),
{
    socket2::SockAddr::from(core::net::SocketAddrV4::new(core::net::Ipv4Addr::from(ip4), port))
}

/// `socket2::SockAddr::from` an IPv6 socket address built from its parts.
///
/// Trusted: the conversion fills a zeroed `sockaddr_in6` from the parts
/// alone, so its result is a function of them, named `v6_sock_addr`.
#[verifier::external_body]
pub(crate) fn sock_addr_v6(ip6: u128, port: u16, flowinfo: u32, scope_id: u32) -> (r: socket2::SockAddr)
    ensures
        r == v6_sock_addr(ip6, port, flowinfo, scope_id),
{
    socket2::SockAddr::from(
        core::net::SocketAddrV6::new(core::net::Ipv6Addr::from(ip6), port, flowinfo, scope_id),
    )
}

/// `socket2::Socket::bind` of the socket of `c` to `addr`, recording the
/// address. Whether it succeeds depends on the system.
#[verifier::external_body]
pub(crate) fn bind(c: &mut SocketConfig, addr: socket2::SockAddr) -> (r: std::io::Result<()>)
    ensures
        r is Ok ==> others_kept(*old(c), *final(c), ConfigItem::Bind),
        r is Ok ==> final(c).bound_to() is Some,
        r is Ok ==> final(c).bound_to().unwrap().value() == addr,
        r is Ok ==> final(c).bound_to().unwrap().socket() == old(c).os_socket(),
        r is Err ==> *final(c) == *old(c),
{
    match c.socket.bind(&addr) {
        Ok(()) => {
            c.bound_to = Some(BoundTo { on_socket: Ghost(c.socket), addr });
            Ok(())
        },
        Err(e) => Err(e),
    }
}

/// `socket2::Socket::set_send_buffer_size` (`SO_SNDBUF`) on the socket of
/// `c`, recording the size asked for. Whether it succeeds depends on the
/// system.
#[verifier::external_body]
pub(crate) fn set_send_buffer_size(c: &mut SocketConfig, size: usize) -> (r: std::io::Result<()>)
    ensures
        r is Ok ==> others_kept(*old(c), *final(c), ConfigItem::SendBuffer),
        r is Ok ==> final(c).send_buffer() is Some,
        r is Ok ==> final(c).send_buffer().unwrap().value() == size,
        r is Ok ==> final(c).send_buffer().unwrap().socket() == old(c).os_socket(),
        r is Err ==> *final(c) == *old(c),
{
    match c.socket.set_send_buffer_size(size) {
        Ok(()) => {
            c.send_buffer = Some(SendBufferSet { on_socket: Ghost(c.socket), size });
            Ok(())
        },
        Err(e) => Err(e),
    }
}

/// `socket2::Socket::set_recv_buffer_size` (`SO_RCVBUF`) on the socket of
/// `c`, recording the size asked for. Whether it succeeds depends on the
/// system.
#[verifier::external_body]
pub(crate) fn set_recv_buffer_size(c: &mut SocketConfig, size: usize) -> (r: std::io::Result<()>)
    ensures
        r is Ok ==> others_kept(*old(c), *final(c), ConfigItem::RecvBuffer),
        r is Ok ==> final(c).recv_buffer() is Some,
        r is Ok ==> final(c).recv_buffer().unwrap().value() == size,
        r is Ok ==> final(c).recv_buffer().unwrap().socket() == old(c).os_socket(),
        r is Err ==> *final(c) == *old(c),
{
    match c.socket.set_recv_buffer_size(size) {
        Ok(()) => {
            c.recv_buffer = Some(RecvBufferSet { on_socket: Ghost(c.socket), size });
            Ok(())
        },
        Err(e) => Err(e),
    }
}

/// `socket2::Socket::set_nonblocking` on the socket of `c`, recording the
/// mode set. Whether it succeeds depends on the system.
#[verifier::external_body]
pub(crate) fn set_nonblocking(c: &mut SocketConfig, nonblocking: bool) -> (r: std::io::Result<()>)
    ensures
        r is Ok ==> others_kept(*old(c), *final(c), ConfigItem::Blocking),
        r is Ok ==> final(c).blocking() is Some,
        r is Ok ==> final(c).blocking().unwrap().value() == nonblocking,
        r is Ok ==> final(c).blocking().unwrap().socket() == old(c).os_socket(),
        r is Err ==> *final(c) == *old(c),
{
    match c.socket.set_nonblocking(nonblocking) {
        Ok(()) => {
            c.blocking = Some(BlockingSet { on_socket: Ghost(c.socket), nonblocking });
            Ok(())
        },
        Err(e) => Err(e),
    }
}

/// `socket2::Socket::local_addr` of the socket of `c`: the address the system
/// reports it bound to. It depends on the system (a port of 0 is replaced by
/// a free one); nothing is stated of it.
#[verifier::external_body]
pub(crate) fn local_sock_addr(c: &SocketConfig) -> std::io::Result<socket2::SockAddr> {
    c.socket.local_addr()
}

/// `socket2::SockAddr::as_socket`, as the library's address: `None` for an
/// address that is not an IP socket address.
#[verifier::external_body]
pub(crate) fn peer_addr_of_sock(addr: &socket2::SockAddr) -> Option<PeerAddr> {
    match addr.as_socket() {
        Some(core::net::SocketAddr::V4(a)) => Some(PeerAddr::V4 { ip4: a.ip().to_bits(), port: a.port() }),
        Some(core::net::SocketAddr::V6(a)) => Some(
            PeerAddr::V6 {
                ip6: a.ip().to_bits(),
                port: a.port(),
                flowinfo: a.flowinfo(),
                scope_id: a.scope_id(),
            },
        ),
        None => None,
    }
}

} // verus!

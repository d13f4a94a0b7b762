use vstd::prelude::*;

use crate::addr::PeerAddr;
use crate::error::{error_class, error_message, io_error, ErrorClass};
use crate::sys::{
    bind, local_sock_addr, new_socket, peer_addr_of_sock, set_nonblocking, set_recv_buffer_size,
    set_reuse_address, set_reuse_port, set_send_buffer_size, sock_addr_v4, sock_addr_v6,
    v4_sock_addr, v6_sock_addr, SocketConfig,
};

verus! {

/// Size in bytes of each listening socket's send and receive buffers
/// (about 17.8 MB), so that bursts are not dropped.
pub const SOCKET_BUFFER_SIZE: usize = 17840000;

/// Why a list of resolved addresses names no single address to bind.
#[derive(Clone, Copy, Debug, PartialEq, Eq, Structural)]
pub enum AddrError {
    /// The address resolved to nothing.
    NoAddress,
    /// The address resolved to more than one socket address.
    MoreThanOne,
}

/// What is wrong with a list of `n` addresses that should hold one, if
/// anything.
pub open spec fn addr_count_error(n: nat) -> Option<AddrError> {
    if n == 0 {
        Some(AddrError::NoAddress)
    } else if n > 1 {
        Some(AddrError::MoreThanOne)
    } else {
        None
    }
}

/// Whether `r` failed as a list of `n` addresses is reported when it does not
/// hold exactly one: with an error of kind `Other` and the message of the
/// address error.
pub open spec fn reports_addr_count<A>(r: std::io::Result<A>, n: nat) -> bool {
    addr_count_error(n) matches Some(k) ==> (r matches Err(e) && error_class(e) == Some(
        ErrorClass::Other,
    ) && error_message(e) == k.message_spec())
}

impl AddrError {
    /// The message of the I/O error that reports this.
    pub open spec fn message_spec(&self) -> Seq<char> {
        match self {
            AddrError::NoAddress => "no socket addresses could be resolved"@,
            AddrError::MoreThanOne => "more than one address resolved"@,
        }
    }

    /// The message of the I/O error that reports this.
    pub fn message(&self) -> (r: &'static str)
        ensures
            r@ == self.message_spec(),
    {
        match self {
            AddrError::NoAddress => "no socket addresses could be resolved",
            AddrError::MoreThanOne => "more than one address resolved",
        }
    }
}

/// The one address that `addrs` holds, or why there is not exactly one.
pub fn pick_single_addr(addrs: &[PeerAddr]) -> (r: Result<PeerAddr, AddrError>)
    ensures
        addrs@.len() == 0 ==> r == Err::<PeerAddr, AddrError>(AddrError::NoAddress),
        addrs@.len() == 1 ==> r == Ok::<PeerAddr, AddrError>(addrs@[0]),
        addrs@.len() > 1 ==> r == Err::<PeerAddr, AddrError>(AddrError::MoreThanOne),
{
    if addrs.len() == 0 {
        Err(AddrError::NoAddress)
    } else if addrs.len() == 1 {
        Ok(addrs[0])
    } else {
        Err(AddrError::MoreThanOne)
    }
}

/// Number of logical CPUs, as `num_cpus::get` reports it.
///
/// Trusted: `num_cpus::get` documents that it always returns at least 1; the
/// exact value depends on the machine (affinity mask, cgroup quota) and is
/// not stated.
#[verifier::external_body]
fn logical_cpu_count() -> (n: usize)
    ensures
        n >= 1,
{
    num_cpus::get()
}

/// The number of listening sockets to create: one per logical CPU, so that
/// `SO_REUSEPORT` can spread incoming datagrams over all of them.
pub fn get_cpu_count() -> (n: usize)
    ensures
        n >= 1,
{
    logical_cpu_count()
}

/// The address family of a socket.
#[derive(Clone, Copy, Debug, PartialEq, Eq, Structural)]
pub enum AddrFamily {
    V4,
    V6,
}

/// The communication semantics of a socket.
#[derive(Clone, Copy, Debug, PartialEq, Eq, Structural)]
pub enum SocketKind {
    /// Connectionless datagrams.
    Datagram,
}

/// The transport protocol of a socket.
#[derive(Clone, Copy, Debug, PartialEq, Eq, Structural)]
pub enum TransportProtocol {
    Udp,
}

/// Everything that is asked of the system to make one listening socket.
#[derive(Clone, Copy, Debug, PartialEq, Eq, Structural)]
pub struct SocketSetup {
    /// The address to bind.
    pub addr: PeerAddr,
    pub family: AddrFamily,
    pub kind: SocketKind,
    pub protocol: TransportProtocol,
    /// `SO_REUSEADDR`.
    pub reuse_address: bool,
    /// `SO_REUSEPORT`, so that several sockets can bind one address.
    pub reuse_port: bool,
    /// Requested `SO_SNDBUF`.
    pub send_buffer_size: usize,
    /// Requested `SO_RCVBUF`.
    pub recv_buffer_size: usize,
    /// Whether the socket is switched to non-blocking mode.
    pub nonblocking: bool,
}

/// The family of `addr`.
pub open spec fn family_of(addr: PeerAddr) -> AddrFamily {
    match addr {
        PeerAddr::V4 { .. } => AddrFamily::V4,
        PeerAddr::V6 { .. } => AddrFamily::V6,
    }
}

/// What is asked of the system for a listening UDP socket on `addr`: both
/// reuse options on, both buffers of [`SOCKET_BUFFER_SIZE`] bytes, and the
/// blocking mode `nonblocking`.
pub open spec fn listen_setup(addr: PeerAddr, nonblocking: bool) -> SocketSetup {
    SocketSetup {
        addr,
        family: family_of(addr),
        kind: SocketKind::Datagram,
        protocol: TransportProtocol::Udp,
        reuse_address: true,
        reuse_port: true,
        send_buffer_size: SOCKET_BUFFER_SIZE,
        recv_buffer_size: SOCKET_BUFFER_SIZE,
        nonblocking,
    }
}

/// The setup of a blocking listening socket on the one address of `addrs`,
/// or why there is not exactly one.
pub fn socket_setup(addrs: &[PeerAddr]) -> (r: Result<SocketSetup, AddrError>)
    ensures
        addrs@.len() == 0 ==> r == Err::<SocketSetup, AddrError>(AddrError::NoAddress),
        addrs@.len() == 1 ==> r == Ok::<SocketSetup, AddrError>(listen_setup(addrs@[0], false)),
        addrs@.len() > 1 ==> r == Err::<SocketSetup, AddrError>(AddrError::MoreThanOne),
{
    match pick_single_addr(addrs) {
        Ok(addr) => Ok(
            SocketSetup {
                addr,
                family: if addr.is_ipv4() {
                    AddrFamily::V4
                } else {
                    AddrFamily::V6
                },
                kind: SocketKind::Datagram,
                protocol: TransportProtocol::Udp,
                reuse_address: true,
                reuse_port: true,
                send_buffer_size: SOCKET_BUFFER_SIZE,
                recv_buffer_size: SOCKET_BUFFER_SIZE,
                nonblocking: false,
            },
        ),
        Err(e) => Err(e),
    }
}

/// The `socket2` address for `addr`.
pub open spec fn sock_addr_of(addr: PeerAddr) -> socket2::SockAddr {
    match addr {
        PeerAddr::V4 { ip4, port } => v4_sock_addr(ip4, port),
        PeerAddr::V6 { ip6, port, flowinfo, scope_id } => v6_sock_addr(
            ip6,
            port,
            flowinfo,
            scope_id,
        ),
    }
}

/// The `socket2` address for `addr`.
fn to_sock_addr(addr: &PeerAddr) -> (r: socket2::SockAddr)
    ensures
        r == sock_addr_of(*addr),
{
    match addr {
        PeerAddr::V4 { ip4, port } => sock_addr_v4(*ip4, *port),
        PeerAddr::V6 { ip6, port, flowinfo, scope_id } => sock_addr_v6(
            *ip6,
            *port,
            *flowinfo,
            *scope_id,
        ),
    }
}


/// What was handed to the system for one socket: the domain, type and
/// protocol it was created with, the two reuse options, the address it was
/// bound to, the two buffer sizes and the blocking mode.
pub struct HandedSetup {
    pub family: AddrFamily,
    pub kind: SocketKind,
    pub protocol: TransportProtocol,
    pub reuse_address: bool,
    pub reuse_port: bool,
    pub bind_addr: socket2::SockAddr,
    pub send_buffer_size: usize,
    pub recv_buffer_size: usize,
    pub nonblocking: bool,
}

/// What making a socket as `setup` asks hands to the system.
pub open spec fn handed_as(setup: SocketSetup) -> HandedSetup {
    HandedSetup {
        family: setup.family,
        kind: setup.kind,
        protocol: setup.protocol,
        reuse_address: setup.reuse_address,
        reuse_port: setup.reuse_port,
        bind_addr: sock_addr_of(setup.addr),
        send_buffer_size: setup.send_buffer_size,
        recv_buffer_size: setup.recv_buffer_size,
        nonblocking: setup.nonblocking,
    }
}

/// A configured, bound UDP socket, with the setup that was asked of the
/// system for it, the records of what each system call was handed, and the
/// address the system reports it bound to.
pub struct ListenSocket {
    config: SocketConfig,
    setup: SocketSetup,
    bound: PeerAddr,
}

impl ListenSocket {
    /// What was asked of the system for this socket.
    pub closed spec fn setup_of(&self) -> SocketSetup {
        self.setup
    }

    /// The address the system reported this socket bound to.
    pub closed spec fn bound_addr(&self) -> PeerAddr {
        self.bound
    }

    /// The operating-system socket itself.
    pub closed spec fn os_socket(&self) -> socket2::Socket {
        self.config.os_socket()
    }

    /// Whether the socket was created here and every option was set on it,
    /// each record being that of the last call made for its option.
    pub closed spec fn made_in_place(&self) -> bool {
        let c = self.config;
        &&& c.created().socket() == c.os_socket()
        &&& c.reuse_address() is Some && c.reuse_address().unwrap().socket() == c.os_socket()
        &&& c.reuse_port() is Some && c.reuse_port().unwrap().socket() == c.os_socket()
        &&& c.bound_to() is Some && c.bound_to().unwrap().socket() == c.os_socket()
        &&& c.send_buffer() is Some && c.send_buffer().unwrap().socket() == c.os_socket()
        &&& c.recv_buffer() is Some && c.recv_buffer().unwrap().socket() == c.os_socket()
        &&& c.blocking() is Some && c.blocking().unwrap().socket() == c.os_socket()
    }

    /// What the last system call of each kind on this socket was handed.
    pub closed spec fn handed(&self) -> HandedSetup {
        let c = self.config;
        HandedSetup {
            family: c.created().family(),
            kind: c.created().kind(),
            protocol: c.created().protocol(),
            reuse_address: c.reuse_address().unwrap().value(),
            reuse_port: c.reuse_port().unwrap().value(),
            bind_addr: c.bound_to().unwrap().value(),
            send_buffer_size: c.send_buffer().unwrap().value(),
            recv_buffer_size: c.recv_buffer().unwrap().value(),
            nonblocking: c.blocking().unwrap().value(),
        }
    }

    /// What was asked of the system for this socket.
    pub fn setup(&self) -> (r: SocketSetup)
        ensures
            r == self.setup_of(),
    {
        self.setup
    }

    /// The address the system reported this socket bound to.
    pub fn local_addr(&self) -> (r: PeerAddr)
        ensures
            r == self.bound_addr(),
    {
        self.bound
    }

    /// The socket itself.
    pub fn socket(&self) -> (r: &socket2::Socket)
        ensures
            *r == self.os_socket(),
    {
        self.config.socket()
    }
}

/// The address a socket is bound to, from what the system reported:
/// an error of kind `Other` when that is not an IP socket address.
pub fn reported_addr(found: Option<PeerAddr>) -> (r: std::io::Result<PeerAddr>)
    ensures
        found matches Some(a) ==> r matches Ok(b) && b == a,
        found is None ==> (r matches Err(e) && error_class(e) == Some(ErrorClass::Other)
            && error_message(e) == "socket is not bound to an IP address"@),
{
    match found {
        Some(a) => Ok(a),
        None => Err(io_error(ErrorClass::Other, "socket is not bound to an IP address")),
    }
}

/// Make one socket as `setup` asks: create it, set both reuse options, bind
/// it, size both buffers, set its blocking mode, and read back its address.
/// Stops at the first refusal of the system.
pub fn create_socket_with(setup: SocketSetup) -> (r: std::io::Result<ListenSocket>)
    ensures
        r matches Ok(s) ==> s.setup_of() == setup && s.handed() == handed_as(setup)
            && s.made_in_place(),
{
    let (socket, created) = match new_socket(setup.family, setup.kind, setup.protocol) {
        Ok(made) => made,
        Err(e) => {
            return Err(e);
        },
    };
    let mut config = SocketConfig::new(socket, created);
    if let Err(e) = set_reuse_address(&mut config, setup.reuse_address) {
        return Err(e);
    }
    if let Err(e) = set_reuse_port(&mut config, setup.reuse_port) {
        return Err(e);
    }
    if let Err(e) = bind(&mut config, to_sock_addr(&setup.addr)) {
        return Err(e);
    }
    if let Err(e) = set_send_buffer_size(&mut config, setup.send_buffer_size) {
        return Err(e);
    }
    if let Err(e) = set_recv_buffer_size(&mut config, setup.recv_buffer_size) {
        return Err(e);
    }
    if let Err(e) = set_nonblocking(&mut config, setup.nonblocking) {
        return Err(e);
    }
    let local = match local_sock_addr(&config) {
        Ok(a) => a,
        Err(e) => {
            return Err(e);
        },
    };
    let bound = match reported_addr(peer_addr_of_sock(&local)) {
        Ok(a) => a,
        Err(e) => {
            return Err(e);
        },
    };
    Ok(ListenSocket { config, setup, bound })
}

/// A listening socket keeps the options asked for it: for a socket made in
/// place as a listening setup on `addr` asks, the last call for each buffer
/// was handed [`SOCKET_BUFFER_SIZE`], both reuse options were last set on, it
/// was bound to `addr`, and its blocking mode is the one asked for.
pub proof fn law_listen_socket_options(s: ListenSocket, addr: PeerAddr, nonblocking: bool)
    requires
        s.made_in_place(),
        s.handed() == handed_as(listen_setup(addr, nonblocking)),
    ensures
        s.handed().recv_buffer_size == SOCKET_BUFFER_SIZE,
        s.handed().send_buffer_size == SOCKET_BUFFER_SIZE,
        s.handed().reuse_address && s.handed().reuse_port,
        s.handed().bind_addr == sock_addr_of(addr),
        s.handed().nonblocking == nonblocking,
        s.handed().kind == SocketKind::Datagram && s.handed().protocol
            == TransportProtocol::Udp,
{
}

/// Create and configure a UDP socket bound to the one address of `addrs`.
///
/// Sets `SO_REUSEADDR` and `SO_REUSEPORT`, so that several sockets may bind
/// the same address and the kernel spreads datagrams across them, binds, and
/// sizes both buffers to [`SOCKET_BUFFER_SIZE`]; the socket stays blocking.
/// Fails, with an error of kind `Other`, when `addrs` does not hold exactly
/// one address, and otherwise when the system refuses a step.
pub fn create_udp_socket(addrs: &[PeerAddr]) -> (r: std::io::Result<ListenSocket>)
    ensures
        reports_addr_count(r, addrs@.len()),
        r matches Ok(s) ==> s.setup_of() == listen_setup(addrs@[0], false) && s.handed()
            == handed_as(listen_setup(addrs@[0], false)) && s.made_in_place(),
{
    match socket_setup(addrs) {
        Ok(setup) => create_socket_with(setup),
        Err(e) => Err(io_error(ErrorClass::Other, e.message())),
    }
}

/// Create a UDP socket as [`create_udp_socket`] does, but in non-blocking
/// mode, ready to be registered with an asynchronous runtime.
pub fn create_async_udp_socket(addrs: &[PeerAddr]) -> (r: std::io::Result<ListenSocket>)
    ensures
        reports_addr_count(r, addrs@.len()),
        r matches Ok(s) ==> s.setup_of() == listen_setup(addrs@[0], true) && s.handed()
            == handed_as(listen_setup(addrs@[0], true)) && s.made_in_place(),
{
    match socket_setup(addrs) {
        Ok(setup) => create_socket_with(SocketSetup { nonblocking: true, ..setup }),
        Err(e) => Err(io_error(ErrorClass::Other, e.message())),
    }
}

/// Whether `v` are non-blocking listening sockets that share one address:
/// the first asked for and handed `addr`, the others the address the system
/// reported for the first, each configured in place.
pub open spec fn shares_address(v: Seq<ListenSocket>, addr: PeerAddr) -> bool {
    &&& v.len() > 0 ==> v[0].setup_of() == listen_setup(addr, true) && v[0].handed() == handed_as(
        listen_setup(addr, true),
    )
    &&& forall|i: int|
        1 <= i < v.len() ==> #[trigger] v[i].setup_of() == listen_setup(v[0].bound_addr(), true)
            && v[i].handed() == handed_as(listen_setup(v[0].bound_addr(), true))
    &&& forall|i: int| 0 <= i < v.len() ==> #[trigger] v[i].made_in_place()
}

/// Create `listen_count` non-blocking sockets that all share one address.
///
/// The first binds the one address of `addrs`; the others bind the address
/// the system reports for the first, so that a port of 0 is chosen once and
/// shared. Stops at the first failure.
pub fn create_udp_socket_list(addrs: &[PeerAddr], listen_count: usize) -> (r: std::io::Result<
    Vec<ListenSocket>,
>)
    ensures
        listen_count == 0 ==> r is Ok,
        listen_count > 0 ==> reports_addr_count(r, addrs@.len()),
        r matches Ok(v) ==> v@.len() == listen_count && (listen_count > 0 ==> shares_address(
            v@,
            addrs@[0],
        )),
{
    let mut listens: Vec<ListenSocket> = Vec::with_capacity(listen_count);
    if listen_count == 0 {
        return Ok(listens);
    }
    let first = match create_async_udp_socket(addrs) {
        Ok(s) => s,
        Err(e) => {
            return Err(e);
        },
    };
    let shared = first.local_addr();
    listens.push(first);
    let mut i: usize = 1;
    while i < listen_count
        invariant
            1 <= i <= listen_count,
            listens@.len() == i,
            addrs@.len() == 1,
            listens@[0].setup_of() == listen_setup(addrs@[0], true),
            listens@[0].handed() == handed_as(listen_setup(addrs@[0], true)),
            forall|j: int| 0 <= j < i ==> #[trigger] listens@[j].made_in_place(),
            listens@[0].bound_addr() == shared,
            forall|j: int|
                1 <= j < i ==> #[trigger] listens@[j].setup_of() == listen_setup(shared, true)
                    && listens@[j].handed() == handed_as(listen_setup(shared, true)),
        decreases listen_count - i,
    {
        let one = [shared];
        match create_async_udp_socket(&one) {
            Ok(sock) => listens.push(sock),
            Err(e) => {
                return Err(e);
            },
        }
        i = i + 1;
    }
    Ok(listens)
}

} // verus!

use vstd::prelude::*;

use std::marker::PhantomData;
use std::sync::Arc;

use crate::addr::PeerAddr;
use crate::clock::ClockLog;
use crate::lock::{new_async_mutex, LockSeed};
use crate::peer::{is_close_signal, CloseReceipt, UDPPeer, UdpPeer, UdpReader};
use crate::registry::{arrive, idle_set, PeerRecord, PeerTable};
use crate::socket::{
    create_udp_socket_list, get_cpu_count, reports_addr_count, shares_address, ListenSocket,
};

verus! {

/// Default maximum UDP payload size in bytes.
///
/// MTU is typically at most 1500 on the internet; 4096 covers Ethernet jumbo
/// frames on LANs without being excessively large.
pub const BUFF_MAX_SIZE: usize = 4096;

/// `Arc::clone`: a new handle to the same shared value.
#[verifier::external_body]
fn share<A>(a: &Arc<A>) -> (r: Arc<A>)
    ensures
        r == *a,
{
    a.clone()
}

/// The addresses that a sequence of close receipts is for.
pub open spec fn receipt_addrs(r: Seq<CloseReceipt>) -> Seq<PeerAddr> {
    r.map_values(|c: CloseReceipt| c.closed_addr())
}

/// Whether each receipt of `r` records the close signal handed to the
/// channel of the peer that `m` registers under the receipt's address.
pub open spec fn signals_registered(r: Seq<CloseReceipt>, m: Map<PeerAddr, PeerRecord<UDPPeer>>) -> bool {
    forall|i: int|
        0 <= i < r.len() ==> {
            &&& m.contains_key(#[trigger] r[i].closed_addr())
            &&& r[i].handed().target() == m[r[i].closed_addr()].1.channel()
            &&& is_close_signal(r[i].handed().item())
        }
}

/// The peers of one listening socket.
///
/// In every state, each registered peer sits under its own remote address
/// and belongs to this registry's socket.
pub struct PeerRegistry {
    table: PeerTable<UDPPeer>,
    /// The clock readings taken by this registry's own time-stamping.
    clock: ClockLog,
}

impl PeerRegistry {
    #[verifier::type_invariant]
    spec fn peers_keyed(&self) -> bool {
        forall|a: PeerAddr| #[trigger]
            self.table@.contains_key(a) ==> self.table@[a].1.remote() == a
                && self.table@[a].1.socket_index() == self.table.owner()
    }

    /// Each registered address, with its last-receive time and peer.
    pub closed spec fn view(&self) -> Map<PeerAddr, PeerRecord<UDPPeer>> {
        self.table@
    }

    /// The index of the socket whose peers this registry holds.
    pub closed spec fn owner(&self) -> usize {
        self.table.owner()
    }

    /// The clock readings this registry has taken, oldest first.
    pub closed spec fn clock_readings(&self) -> Seq<i64> {
        self.clock.readings()
    }

    /// Read the clock and log the reading.
    fn read_clock(&mut self) -> (t: i64)
        ensures
            final(self).clock_readings() == old(self).clock_readings().push(t),
            final(self)@ == old(self)@,
            final(self).owner() == old(self).owner(),
    {
        proof {
            use_type_invariant(&*self);
        }
        let mut clock = ClockLog::new();
        std::mem::swap(&mut clock, &mut self.clock);
        let t = clock.read();
        std::mem::swap(&mut clock, &mut self.clock);
        t
    }

    /// An empty registry for the socket with index `socket_id`.
    pub fn new(socket_id: usize) -> (r: Self)
        ensures
            r@ == Map::<PeerAddr, PeerRecord<UDPPeer>>::empty(),
            r.owner() == socket_id,
            r.clock_readings() == Seq::<i64>::empty(),
    {
        PeerRegistry { table: PeerTable::new(socket_id), clock: ClockLog::new() }
    }

    /// The index of the socket whose peers this registry holds.
    pub fn socket_id(&self) -> (r: usize)
        ensures
            r == self.owner(),
    {
        self.table.socket_id()
    }

    /// Whether a peer is registered for `addr`.
    pub fn contains(&self, addr: &PeerAddr) -> (r: bool)
        ensures
            r == self@.contains_key(*addr),
    {
        self.table.contains(addr)
    }

    /// The time of the last datagram recorded for `addr`, if it is registered.
    pub fn last_recv_sec(&self, addr: &PeerAddr) -> (r: Option<i64>)
        ensures
            r == (if self@.contains_key(*addr) {
                Some(self@[*addr].0)
            } else {
                None
            }),
    {
        self.table.last_recv_sec(addr)
    }

    /// The peer registered for `addr`, if any; it has that address and this
    /// registry's socket index.
    pub fn get(&self, addr: &PeerAddr) -> (r: Option<&UDPPeer>)
        ensures
            r == (if self@.contains_key(*addr) {
                Some(&self@[*addr].1)
            } else {
                None
            }),
            r matches Some(p) ==> p.remote() == *addr && p.socket_index() == self.owner(),
    {
        proof {
            use_type_invariant(self);
        }
        self.table.get(addr)
    }

    /// Handle a datagram from `addr` that arrived at time `now` on `socket`.
    ///
    /// A known address gets its peer back, with its time refreshed when
    /// `track` holds. An unknown address gets a new peer, created for this
    /// registry's socket index and answering through `socket`, together with
    /// the reader half of its channel, for a new handler.
    pub fn receive_at(
        &mut self,
        socket: &Arc<tokio::net::UdpSocket>,
        addr: PeerAddr,
        now: i64,
        track: bool,
    ) -> (r: (UDPPeer, Option<UdpReader>))
        ensures
            final(self)@ == arrive(old(self)@, addr, now, track, r.0),
            r.1 is Some <==> !old(self)@.contains_key(addr),
            old(self)@.contains_key(addr) ==> r.0 == old(self)@[addr].1,
            r.0.socket_index() == old(self).owner(),
            r.0.remote() == addr,
            !old(self)@.contains_key(addr) ==> r.0.socket() == *socket,
            final(self).owner() == old(self).owner(),
            final(self).clock_readings() == old(self).clock_readings(),
    {
        proof {
            use_type_invariant(&*self);
        }
        let ghost pre = self.table@;
        let mut table = PeerTable::new(0);
        std::mem::swap(&mut table, &mut self.table);
        let result = if table.touch(&addr, now, track) {
            (share(table.get(&addr).unwrap()), None)
        } else {
            let (peer, reader) = UdpPeer::new(table.socket_id(), share(socket), addr);
            table.register(addr, share(&peer), now);
            (peer, Some(reader))
        };
        std::mem::swap(&mut table, &mut self.table);
        proof {
            assert forall|a: PeerAddr| #[trigger]
                self.table@.contains_key(a) implies self.table@[a].1.remote() == a
                && self.table@[a].1.socket_index() == self.table.owner() by {
                if a != addr {
                    assert(pre.contains_key(a));
                }
            }
        }
        result
    }

    /// Handle a datagram from `addr`, as [`PeerRegistry::receive_at`] does,
    /// at the current time: a clock reading taken during the call, which is
    /// logged.
    pub fn receive(&mut self, socket: &Arc<tokio::net::UdpSocket>, addr: PeerAddr, track: bool) -> (r: (
        UDPPeer,
        Option<UdpReader>,
    ))
        ensures
            exists|now: i64| final(self)@ == arrive(old(self)@, addr, now, track, r.0),
            final(self).clock_readings().len() == old(self).clock_readings().len() + 1,
            final(self).clock_readings().drop_last() == old(self).clock_readings(),
            final(self)@ == arrive(old(self)@, addr, final(self).clock_readings().last(), track, r.0),
            track || !old(self)@.contains_key(addr) ==> (final(self)@[addr]).0
                == final(self).clock_readings().last(),
            r.1 is Some <==> !old(self)@.contains_key(addr),
            old(self)@.contains_key(addr) ==> r.0 == old(self)@[addr].1,
            r.0.socket_index() == old(self).owner(),
            r.0.remote() == addr,
            !old(self)@.contains_key(addr) ==> r.0.socket() == *socket,
            final(self).owner() == old(self).owner(),
    {
        let now = self.read_clock();
        self.receive_at(socket, addr, now, track)
    }

    /// Remove the peer registered for `addr`, returning it if it was.
    pub fn remove(&mut self, addr: &PeerAddr) -> (r: Option<UDPPeer>)
        ensures
            final(self)@ == old(self)@.remove(*addr),
            r == (if old(self)@.contains_key(*addr) {
                Some(old(self)@[*addr].1)
            } else {
                None
            }),
            final(self).owner() == old(self).owner(),
            final(self).clock_readings() == old(self).clock_readings(),
    {
        proof {
            use_type_invariant(&*self);
        }
        let ghost pre = self.table@;
        let mut table = PeerTable::new(0);
        std::mem::swap(&mut table, &mut self.table);
        let r = table.remove(addr);
        std::mem::swap(&mut table, &mut self.table);
        proof {
            assert forall|a: PeerAddr| #[trigger]
                self.table@.contains_key(a) implies self.table@[a].1.remote() == a
                && self.table@[a].1.socket_index() == self.table.owner() by {
                assert(pre.contains_key(a));
            }
        }
        r
    }

    /// Close every peer that is idle at `now`, that is, silent for more than
    /// `secs` seconds; return a receipt for each, once.
    pub fn close_idle_at(&self, now: i64, secs: u64) -> (r: Vec<CloseReceipt>)
        ensures
            receipt_addrs(r@).no_duplicates(),
            receipt_addrs(r@).to_set() == idle_set(self@, now, secs),
            signals_registered(r@, self@),
    {
        let idle = self.table.idle_addrs(now, secs);
        let mut out: Vec<CloseReceipt> = Vec::new();
        let mut i: usize = 0;
        while i < idle.len()
            invariant
                i <= idle@.len(),
                out@.len() == i,
                forall|j: int| 0 <= j < i ==> #[trigger] out@[j].closed_addr() == idle@[j],
                idle@.to_set() == idle_set(self@, now, secs),
                signals_registered(out@, self@),
            decreases idle@.len() - i,
        {
            let a = idle[i];
            proof {
                assert(idle@.to_set().contains(a));
            }
            let receipt = self.get(&a).unwrap().close();
            let ghost before = out@;
            out.push(receipt);
            proof {
                assert forall|j: int| 0 <= j < out@.len() implies {
                    &&& self@.contains_key(#[trigger] out@[j].closed_addr())
                    &&& out@[j].handed().target() == self@[out@[j].closed_addr()].1.channel()
                    &&& is_close_signal(out@[j].handed().item())
                } by {
                    if j < before.len() {
                        assert(out@[j] == before[j]);
                    }
                }
            }
            i = i + 1;
        }
        proof {
            assert(receipt_addrs(out@) =~= idle@);
        }
        out
    }

    /// Close every peer that is idle now, as [`PeerRegistry::close_idle_at`]
    /// does at the current time.
    ///
    /// The time is a clock reading taken during the call, which is logged.
    pub fn close_idle(&mut self, secs: u64) -> (r: Vec<CloseReceipt>)
        ensures
            final(self)@ == old(self)@,
            final(self).owner() == old(self).owner(),
            receipt_addrs(r@).no_duplicates(),
            signals_registered(r@, old(self)@),
            exists|now: i64| receipt_addrs(r@).to_set() == idle_set(old(self)@, now, secs),
            final(self).clock_readings().len() == old(self).clock_readings().len() + 1,
            final(self).clock_readings().drop_last() == old(self).clock_readings(),
            receipt_addrs(r@).to_set() == idle_set(
                old(self)@,
                final(self).clock_readings().last(),
                secs,
            ),
            forall|a: PeerAddr|
                receipt_addrs(r@).contains(a) <==> old(self)@.contains_key(a)
                    && final(self).clock_readings().last() - old(self)@[a].0 > secs,
    {
        let now = self.read_clock();
        let r = self.close_idle_at(now, secs);
        proof {
            assert forall|a: PeerAddr|
                receipt_addrs(r@).contains(a) <==> old(self)@.contains_key(a)
                    && now - old(self)@[a].0 > secs by {
                if receipt_addrs(r@).contains(a) {
                    assert(receipt_addrs(r@).to_set().contains(a));
                }
                if old(self)@.contains_key(a) && now - old(self)@[a].0 > secs {
                    assert(idle_set(old(self)@, now, secs).contains(a));
                    assert(receipt_addrs(r@).to_set().contains(a));
                }
            }
        }
        r
    }
}

/// Per-socket context, created once for each listening UDP socket.
///
/// Each context runs its own receive loop. Its registry is keyed by remote
/// address, so the first datagram from an address creates a new peer and
/// later ones reuse it.
pub struct UdpContext {
    /// Index assigned at startup (0, 1, ...).
    pub id: usize,
    /// The socket this context receives on and answers its peers through.
    recv: ListenSocket,
    /// The peers currently active on this socket; the receive loop and the
    /// removal after a handler ends both lock it.
    pub peers: async_lock::Mutex<PeerRegistry>,
    /// The record that `peers` was made holding this context's first
    /// registry.
    seed: LockSeed<PeerRegistry>,
}

impl UdpContext {
    /// The index of this context.
    pub closed spec fn index(&self) -> usize {
        self.id
    }

    /// The socket of this context.
    pub closed spec fn listen(&self) -> ListenSocket {
        self.recv
    }

    /// Whether `peers` is the mutex that was made holding the first registry.
    pub closed spec fn seeded_lock(&self) -> bool {
        self.seed.lock() == self.peers
    }

    /// The registry that `peers` held when this context was made.
    pub closed spec fn first_registry(&self) -> PeerRegistry {
        self.seed.held()
    }

    /// Whether this context's mutex was made holding an empty registry, with
    /// no clock reading taken, for the socket with this context's index: the
    /// peers it creates get that index.
    pub open spec fn starts_empty(&self) -> bool {
        &&& self.seeded_lock()
        &&& self.first_registry().owner() == self.index()
        &&& self.first_registry()@ == Map::<PeerAddr, PeerRecord<UDPPeer>>::empty()
        &&& self.first_registry().clock_readings() == Seq::<i64>::empty()
    }

    /// A context with index `id` on `socket`, whose mutex holds an empty
    /// registry for the socket with index `id`.
    fn new(id: usize, socket: ListenSocket) -> (r: Arc<UdpContext>)
        ensures
            r.index() == id,
            r.listen() == socket,
            r.starts_empty(),
    {
        let (peers, seed) = new_async_mutex(PeerRegistry::new(id));
        Arc::new(UdpContext { id, recv: socket, peers, seed })
    }

    /// The index of this context.
    pub fn get_id(&self) -> (r: usize)
        ensures
            r == self.index(),
    {
        self.id
    }

    /// The socket of this context.
    pub fn get_socket(&self) -> (r: &ListenSocket)
        ensures
            *r == self.listen(),
    {
        &self.recv
    }
}

/// Each context starts with a registry of its own socket: where contexts are
/// numbered by position and each was made as [`UdpContext::starts_empty`]
/// describes, context `i` first held an empty registry for socket `i`, and no
/// two contexts first held registries for the same socket.
pub proof fn law_context_registries_own_index(contexts: Seq<Arc<UdpContext>>, i: int, j: int)
    requires
        forall|k: int| 0 <= k < contexts.len() ==> #[trigger] contexts[k].index() == k,
        forall|k: int| 0 <= k < contexts.len() ==> #[trigger] contexts[k].starts_empty(),
        0 <= i < contexts.len(),
        0 <= j < contexts.len(),
        i != j,
    ensures
        contexts[i].first_registry().owner() == i,
        contexts[i].first_registry()@ == Map::<PeerAddr, PeerRecord<UDPPeer>>::empty(),
        contexts[i].first_registry().owner() != contexts[j].first_registry().owner(),
{
    assert(contexts[i].starts_empty());
    assert(contexts[j].starts_empty());
}

/// A multi-socket UDP server.
///
/// `I` is the user's handler; `T` is the shared state handed, cloned, to each
/// handler.
pub struct UdpServer<I, T> {
    /// One context per listening socket.
    udp_contexts: Vec<Arc<UdpContext>>,
    /// The user's handler, shared by all peer tasks.
    input: Arc<I>,
    _ph: PhantomData<T>,
    /// Peer idle timeout in seconds; `None` means peers never expire.
    clean_sec: Option<u64>,
}

impl<I, T> UdpServer<I, T> {
    /// The contexts, one per listening socket, in index order.
    pub closed spec fn context_list(&self) -> Seq<Arc<UdpContext>> {
        self.udp_contexts@
    }

    /// The user's handler.
    pub closed spec fn handler_fn(&self) -> I {
        *self.input
    }

    /// The idle timeout in seconds, if one is set.
    pub closed spec fn peer_timeout(&self) -> Option<u64> {
        self.clean_sec
    }

    /// The listening sockets, in context order.
    pub open spec fn listen_sockets(&self) -> Seq<ListenSocket> {
        self.context_list().map_values(|c: Arc<UdpContext>| c.listen())
    }

    /// A server over `sockets`: context `i` has index `i` and socket
    /// `sockets[i]`; `input` is the handler; no idle timeout.
    pub fn from_sockets(sockets: Vec<ListenSocket>, input: I) -> (r: Self)
        ensures
            r.context_list().len() == sockets@.len(),
            forall|i: int| 0 <= i < sockets@.len() ==> #[trigger] r.context_list()[i].index() == i,
            forall|i: int|
                0 <= i < sockets@.len() ==> #[trigger] r.context_list()[i].listen() == sockets@[i],
            forall|i: int| 0 <= i < sockets@.len() ==> #[trigger] r.context_list()[i].starts_empty(),
            r.peer_timeout() is None,
            r.handler_fn() == input,
    {
        let ghost all = sockets@;
        let mut sockets = sockets;
        let count = sockets.len();
        let mut udp_contexts: Vec<Arc<UdpContext>> = Vec::new();
        let mut id: usize = 0;
        while id < count
            invariant
                count == all.len(),
                id <= count,
                sockets@ == all.subrange(id as int, count as int),
                udp_contexts@.len() == id,
                forall|i: int| 0 <= i < id ==> #[trigger] udp_contexts@[i].index() == i,
                forall|i: int| 0 <= i < id ==> #[trigger] udp_contexts@[i].listen() == all[i],
                forall|i: int| 0 <= i < id ==> #[trigger] udp_contexts@[i].starts_empty(),
            decreases count - id,
        {
            let socket = sockets.remove(0);
            udp_contexts.push(UdpContext::new(id, socket));
            id = id + 1;
        }
        UdpServer { udp_contexts, input: Arc::new(input), _ph: PhantomData, clean_sec: None }
    }

    /// Create a server bound to the one address of `addrs`, with `input` as
    /// the handler invoked for every new peer.
    ///
    /// Creates one socket per logical CPU, as [`UdpServer::with_listen_count`]
    /// does for that count.
    pub fn new(addrs: &[PeerAddr], input: I) -> (r: std::io::Result<Self>)
        ensures
            reports_addr_count(r, addrs@.len()),
            r matches Ok(s) ==> {
                &&& s.context_list().len() >= 1
                &&& forall|i: int|
                    0 <= i < s.context_list().len() ==> #[trigger] s.context_list()[i].index()
                        == i
                &&& forall|i: int|
                    0 <= i < s.context_list().len() ==> #[trigger] s.context_list()[i].starts_empty()
                &&& shares_address(s.listen_sockets(), addrs@[0])
                &&& s.peer_timeout() is None
                &&& s.handler_fn() == input
            },
    {
        UdpServer::with_listen_count(addrs, input, get_cpu_count())
    }

    /// Create a server with `listen_count` sockets that share the one
    /// address of `addrs`, made as [`create_udp_socket_list`] makes them,
    /// each wrapped in a context whose index is its position, and with
    /// `input` as the handler invoked for every new peer.
    ///
    /// Fails when sockets are asked for and `addrs` does not hold exactly one
    /// address, or when the system refuses a socket. With none asked for it
    /// succeeds, with no context.
    pub fn with_listen_count(addrs: &[PeerAddr], input: I, listen_count: usize) -> (r:
        std::io::Result<Self>)
        ensures
            listen_count > 0 ==> reports_addr_count(r, addrs@.len()),
            listen_count == 0 ==> r is Ok,
            r matches Ok(s) ==> {
                &&& s.context_list().len() == listen_count
                &&& forall|i: int|
                    0 <= i < s.context_list().len() ==> #[trigger] s.context_list()[i].index()
                        == i
                &&& forall|i: int|
                    0 <= i < s.context_list().len() ==> #[trigger] s.context_list()[i].starts_empty()
                &&& listen_count > 0 ==> shares_address(s.listen_sockets(), addrs@[0])
                &&& s.peer_timeout() is None
                &&& s.handler_fn() == input
            },
    {
        match create_udp_socket_list(addrs, listen_count) {
            Ok(sockets) => {
                let ghost made = sockets@;
                let s = UdpServer::from_sockets(sockets, input);
                proof {
                    assert(s.listen_sockets() =~= made);
                }
                Ok(s)
            },
            Err(e) => Err(e),
        }
    }

    /// Set the peer idle timeout in seconds.
    ///
    /// Once the server runs, any peer whose last datagram is more than `sec`
    /// seconds old is closed: its channel receives an error of kind
    /// `TimedOut`. A timeout of 0 is refused (the caller must not pass it).
    pub fn set_peer_timeout_sec(self, sec: u64) -> (r: UdpServer<I, T>)
        requires
            sec > 0,
        ensures
            r.peer_timeout() == Some(sec),
            r.context_list() == self.context_list(),
            r.handler_fn() == self.handler_fn(),
    {
        let mut s = self;
        s.clean_sec = Some(sec);
        s
    }

    /// The idle timeout in seconds, if one is set.
    pub fn peer_timeout_sec(&self) -> (r: Option<u64>)
        ensures
            r == self.peer_timeout(),
    {
        self.clean_sec
    }

    /// The contexts, one per listening socket, in index order.
    pub fn contexts(&self) -> (r: &Vec<Arc<UdpContext>>)
        ensures
            r@ == self.context_list(),
    {
        &self.udp_contexts
    }

    /// The context with index `index`, if there is one.
    pub fn context(&self, index: usize) -> (r: Option<&Arc<UdpContext>>)
        ensures
            r == (if index < self.context_list().len() {
                Some(&self.context_list()[index as int])
            } else {
                None
            }),
    {
        if index < self.udp_contexts.len() {
            Some(&self.udp_contexts[index])
        } else {
            None
        }
    }

    /// A new handle to the user's handler.
    pub fn handler(&self) -> (r: Arc<I>)
        ensures
            *r == self.handler_fn(),
    {
        share(&self.input)
    }
}

} // verus!

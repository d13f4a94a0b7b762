use vstd::prelude::*;

use crate::addr::PeerAddr;

verus! {

/// What the registry knows of one remote peer: the time, in seconds since the
/// epoch, of the last datagram recorded for it, and the handle kept for it.
pub type PeerRecord<P> = (i64, P);

/// Whether a peer last heard from at `last_recv_sec` has been silent for more
/// than `secs` seconds at time `now`.
pub open spec fn is_idle(last_recv_sec: i64, now: i64, secs: u64) -> bool {
    now - last_recv_sec > secs
}

/// The registry after a datagram from `addr` arrives at time `now`.
///
/// A known address keeps its handle; its time is refreshed only when idle
/// tracking is on. An unknown address is registered with the handle `fresh`
/// and the time of arrival.
pub open spec fn arrive<P>(
    m: Map<PeerAddr, PeerRecord<P>>,
    addr: PeerAddr,
    now: i64,
    track: bool,
    fresh: P,
) -> Map<PeerAddr, PeerRecord<P>> {
    if m.contains_key(addr) {
        if track {
            m.insert(addr, (now, m[addr].1))
        } else {
            m
        }
    } else {
        m.insert(addr, (now, fresh))
    }
}

/// The addresses of a registry whose peers are idle at `now`.
pub open spec fn idle_set<P>(m: Map<PeerAddr, PeerRecord<P>>, now: i64, secs: u64) -> Set<
    PeerAddr,
> {
    Set::new(|a: PeerAddr| m.contains_key(a) && is_idle(m[a].0, now, secs))
}

/// Three parallel vectors: the address, last-receive time and handle of each
/// registered peer. Well formed when they have one length and no address
/// occurs twice.
struct PeerSlots<P> {
    addrs: Vec<PeerAddr>,
    last_recv: Vec<i64>,
    peers: Vec<P>,
}

impl<P> PeerSlots<P> {
    spec fn wf(&self) -> bool {
        &&& self.addrs@.len() == self.last_recv@.len()
        &&& self.addrs@.len() == self.peers@.len()
        &&& forall|i: int, j: int|
            0 <= i < j < self.addrs@.len() ==> self.addrs@[i] != self.addrs@[j]
    }

    spec fn has(&self, a: PeerAddr) -> bool {
        exists|i: int| 0 <= i < self.addrs@.len() && self.addrs@[i] == a
    }

    spec fn index_of(&self, a: PeerAddr) -> int {
        choose|i: int| 0 <= i < self.addrs@.len() && self.addrs@[i] == a
    }

    spec fn view(&self) -> Map<PeerAddr, PeerRecord<P>> {
        Map::new(
            |a: PeerAddr| self.has(a),
            |a: PeerAddr| (self.last_recv@[self.index_of(a)], self.peers@[self.index_of(a)]),
        )
    }

    proof fn lemma_view_at(&self, i: int)
        requires
            self.wf(),
            0 <= i < self.addrs@.len(),
        ensures
            self@.contains_key(self.addrs@[i]),
            self@[self.addrs@[i]] == (self.last_recv@[i], self.peers@[i]),
    {
        let a = self.addrs@[i];
        assert(self.has(a));
        let j = self.index_of(a);
        assert(0 <= j < self.addrs@.len() && self.addrs@[j] == a);
        if j < i {
            assert(self.addrs@[j] != self.addrs@[i]);
        } else if i < j {
            assert(self.addrs@[i] != self.addrs@[j]);
        }
    }

    fn empty() -> (t: Self)
        ensures
            t.wf(),
            t@ == Map::<PeerAddr, PeerRecord<P>>::empty(),
    {
        let t = PeerSlots { addrs: Vec::new(), last_recv: Vec::new(), peers: Vec::new() };
        assert(t@ =~= Map::<PeerAddr, PeerRecord<P>>::empty());
        t
    }

    fn find(&self, addr: &PeerAddr) -> (r: Option<usize>)
        ensures
            match r {
                Some(i) => i < self.addrs@.len() && self.addrs@[i as int] == *addr,
                None => !self.has(*addr),
            },
    {
        let mut i: usize = 0;
        while i < self.addrs.len()
            invariant
                i <= self.addrs@.len(),
                forall|j: int| 0 <= j < i ==> self.addrs@[j] != *addr,
            decreases self.addrs@.len() - i,
        {
            if self.addrs[i] == *addr {
                return Some(i);
            }
            i = i + 1;
        }
        None
    }

    /// Whether a peer is registered for `addr`.
    fn contains(&self, addr: &PeerAddr) -> (r: bool)
        ensures
            r == self@.contains_key(*addr),
    {
        match self.find(addr) {
            Some(_) => true,
            None => false,
        }
    }

    /// The time of the last datagram recorded for `addr`, if it is registered.
    fn last_recv_sec(&self, addr: &PeerAddr) -> (r: Option<i64>)
        requires
            self.wf(),
        ensures
            r == (if self@.contains_key(*addr) {
                Some(self@[*addr].0)
            } else {
                None
            }),
    {
        match self.find(addr) {
            Some(i) => {
                proof {
                    self.lemma_view_at(i as int);
                }
                Some(self.last_recv[i])
            },
            None => None,
        }
    }

    /// The handle registered for `addr`, if any.
    fn get(&self, addr: &PeerAddr) -> (r: Option<&P>)
        requires
            self.wf(),
        ensures
            r == (if self@.contains_key(*addr) {
                Some(&self@[*addr].1)
            } else {
                None
            }),
    {
        match self.find(addr) {
            Some(i) => {
                proof {
                    self.lemma_view_at(i as int);
                }
                Some(&self.peers[i])
            },
            None => None,
        }
    }

    /// Record a datagram from `addr` at time `now`, if `addr` is registered.
    ///
    /// Returns whether it is. The time is refreshed only when `track` holds.
    fn touch(&mut self, addr: &PeerAddr, now: i64, track: bool) -> (known: bool)
        requires
            old(self).wf(),
        ensures
            final(self).wf(),
            known == old(self)@.contains_key(*addr),
            final(self)@ == (if known && track {
                old(self)@.insert(*addr, (now, old(self)@[*addr].1))
            } else {
                old(self)@
            }),
    {
        match self.find(addr) {
            None => false,
            Some(i) => {
                proof {
                    self.lemma_view_at(i as int);
                }
                if track {
                    let ghost pre = *self;
                    self.last_recv.set(i, now);
                    proof {
                        assert(self.addrs@ == pre.addrs@);
                        assert(self.peers@ == pre.peers@);
                        assert forall|a: PeerAddr| #![auto] self.has(a) == pre.has(a) by {}
                        assert forall|a: PeerAddr| self.has(a) implies self@[a] == pre@.insert(
                            *addr,
                            (now, pre@[*addr].1),
                        )[a] by {
                            let j = self.index_of(a);
                            self.lemma_view_at(j);
                            pre.lemma_view_at(j);
                        }
                        assert(self@ =~= pre@.insert(*addr, (now, pre@[*addr].1)));
                    }
                }
                true
            },
        }
    }

    /// Register a new peer for `addr`, first heard from at time `now`.
    fn register(&mut self, addr: PeerAddr, peer: P, now: i64)
        requires
            old(self).wf(),
            !old(self)@.contains_key(addr),
        ensures
            final(self).wf(),
            final(self)@ == old(self)@.insert(addr, (now, peer)),
    {
        let ghost pre = *self;
        let ghost n = self.addrs@.len();
        proof {
            assert forall|i: int| 0 <= i < n implies self.addrs@[i] != addr by {
                self.lemma_view_at(i);
            }
        }
        self.addrs.push(addr);
        self.last_recv.push(now);
        self.peers.push(peer);
        proof {
            assert forall|i: int| 0 <= i < n implies pre.addrs@[i] == self.addrs@[i] by {}
            self.lemma_view_at(n as int);
            assert forall|a: PeerAddr| #![auto] self.has(a) == (pre.has(a) || a == addr) by {
                if pre.has(a) {
                    let j = pre.index_of(a);
                    assert(self.addrs@[j] == a);
                }
                if self.has(a) && a != addr {
                    let j = self.index_of(a);
                    assert(j < n);
                    assert(pre.addrs@[j] == a);
                }
            }
            assert forall|a: PeerAddr| self.has(a) implies self@[a] == pre@.insert(
                addr,
                (now, peer),
            )[a] by {
                let j = self.index_of(a);
                self.lemma_view_at(j);
                if a != addr {
                    assert(j < n);
                    pre.lemma_view_at(j);
                }
            }
            assert(self@ =~= pre@.insert(addr, (now, peer)));
        }
    }

    /// Remove the peer registered for `addr`, returning its handle if it was.
    fn remove(&mut self, addr: &PeerAddr) -> (r: Option<P>)
        requires
            old(self).wf(),
        ensures
            final(self).wf(),
            final(self)@ == old(self)@.remove(*addr),
            r == (if old(self)@.contains_key(*addr) {
                Some(old(self)@[*addr].1)
            } else {
                None
            }),
    {
        match self.find(addr) {
            None => {
                proof {
                    assert(self@ =~= self@.remove(*addr));
                }
                None
            },
            Some(i) => {
                let ghost pre = *self;
                let ghost n = self.addrs@.len();
                proof {
                    pre.lemma_view_at(i as int);
                    pre.lemma_view_at(n - 1);
                }
                self.addrs.swap_remove(i);
                self.last_recv.swap_remove(i);
                let p = self.peers.swap_remove(i);
                proof {
                    // Position `i` now holds what was last; every other position is unchanged.
                    assert forall|j: int| 0 <= j < n - 1 implies #[trigger] self.addrs@[j]
                        == (if j == i {
                        pre.addrs@[n - 1]
                    } else {
                        pre.addrs@[j]
                    }) by {}
                    assert forall|a: PeerAddr| #![auto] self.has(a) == (pre.has(a) && a != *addr) by {
                        if self.has(a) {
                            let j = self.index_of(a);
                            if j == i {
                                assert(pre.addrs@[n - 1] == a);
                                assert(n - 1 != i);
                            } else {
                                assert(pre.addrs@[j] == a);
                                assert(j != i);
                            }
                        }
                        if pre.has(a) && a != *addr {
                            let j = pre.index_of(a);
                            assert(j != i);
                            if j == n - 1 {
                                assert(self.addrs@[i as int] == a);
                            } else {
                                assert(self.addrs@[j] == a);
                            }
                        }
                    }
                    assert forall|a: PeerAddr| self.has(a) implies self@[a] == pre@.remove(
                        *addr,
                    )[a] by {
                        let j = self.index_of(a);
                        self.lemma_view_at(j);
                        if j == i {
                            pre.lemma_view_at(n - 1);
                        } else {
                            pre.lemma_view_at(j);
                        }
                    }
                    assert(self@ =~= pre@.remove(*addr));
                }
                Some(p)
            },
        }
    }

    /// The addresses of all registered peers that are idle at `now`, that is,
    /// silent for more than `secs` seconds, each once.
    fn idle_addrs(&self, now: i64, secs: u64) -> (r: Vec<PeerAddr>)
        requires
            self.wf(),
        ensures
            r@.no_duplicates(),
            r@.to_set() == idle_set(self@, now, secs),
    {
        let mut out: Vec<PeerAddr> = Vec::new();
        let mut i: usize = 0;
        while i < self.addrs.len()
            invariant
                self.wf(),
                i <= self.addrs@.len(),
                out@.no_duplicates(),
                forall|a: PeerAddr|
                    out@.contains(a) <==> exists|j: int|
                        0 <= j < i && self.addrs@[j] == a && is_idle(self.last_recv@[j], now, secs),
            decreases self.addrs@.len() - i,
        {
            let last = self.last_recv[i];
            if (now as i128) - (last as i128) > (secs as i128) {
                let a = self.addrs[i];
                proof {
                    assert forall|k: int| 0 <= k < out@.len() implies out@[k] != a by {
                        assert(out@.contains(out@[k]));
                        let j = choose|j: int|
                            0 <= j < i && self.addrs@[j] == out@[k] && is_idle(
                                self.last_recv@[j],
                                now,
                                secs,
                            );
                        assert(self.addrs@[j] != self.addrs@[i as int]);
                    }
                }
                let ghost before = out@;
                out.push(a);
                proof {
                    assert forall|b: PeerAddr| out@.contains(b) <==> exists|j: int|
                        0 <= j < i + 1 && self.addrs@[j] == b && is_idle(
                            self.last_recv@[j],
                            now,
                            secs,
                        ) by {
                        if out@.contains(b) {
                            let k = choose|k: int| 0 <= k < out@.len() && out@[k] == b;
                            if k < before.len() {
                                assert(before.contains(b));
                            }
                        }
                        if exists|j: int|
                            0 <= j < i + 1 && self.addrs@[j] == b && is_idle(
                                self.last_recv@[j],
                                now,
                                secs,
                            ) {
                            let j = choose|j: int|
                                0 <= j < i + 1 && self.addrs@[j] == b && is_idle(
                                    self.last_recv@[j],
                                    now,
                                    secs,
                                );
                            if j < i {
                                assert(before.contains(b));
                                let k = choose|k: int| 0 <= k < before.len() && before[k] == b;
                                assert(out@[k] == b);
                            } else {
                                assert(out@[before.len() as int] == b);
                            }
                        }
                    }
                }
            } else {
                proof {
                    assert forall|b: PeerAddr| out@.contains(b) <==> exists|j: int|
                        0 <= j < i + 1 && self.addrs@[j] == b && is_idle(
                            self.last_recv@[j],
                            now,
                            secs,
                        ) by {
                        if exists|j: int|
                            0 <= j < i + 1 && self.addrs@[j] == b && is_idle(
                                self.last_recv@[j],
                                now,
                                secs,
                            ) {
                            let j = choose|j: int|
                                0 <= j < i + 1 && self.addrs@[j] == b && is_idle(
                                    self.last_recv@[j],
                                    now,
                                    secs,
                                );
                            assert(j != i);
                        }
                    }
                }
            }
            i = i + 1;
        }
        proof {
            assert forall|a: PeerAddr| #[trigger] out@.to_set().contains(a) == idle_set(
                self@,
                now,
                secs,
            ).contains(a) by {
                if out@.contains(a) {
                    let j = choose|j: int|
                        0 <= j < self.addrs@.len() && self.addrs@[j] == a && is_idle(
                            self.last_recv@[j],
                            now,
                            secs,
                        );
                    self.lemma_view_at(j);
                }
                if self@.contains_key(a) && is_idle(self@[a].0, now, secs) {
                    let j = self.index_of(a);
                    self.lemma_view_at(j);
                    assert(out@.contains(a));
                }
            }
            assert(out@.to_set() =~= idle_set(self@, now, secs));
        }
        out
    }
}

/// The peers of one listening socket, each keyed by its remote address.
///
/// No address occurs twice. The registry is viewed as a map from address to
/// the last-receive time and the handle of the peer.
pub struct PeerTable<P> {
    socket_id: usize,
    slots: PeerSlots<P>,
}

impl<P> PeerTable<P> {
    #[verifier::type_invariant]
    spec fn slots_wf(&self) -> bool {
        self.slots.wf()
    }

    /// The index of the socket whose peers this registry holds.
    pub closed spec fn owner(&self) -> usize {
        self.socket_id
    }

    /// Each registered address, with its last-receive time and handle.
    pub closed spec fn view(&self) -> Map<PeerAddr, PeerRecord<P>> {
        self.slots@
    }

    /// An empty registry for the socket with index `socket_id`.
    pub fn new(socket_id: usize) -> (t: Self)
        ensures
            t@ == Map::<PeerAddr, PeerRecord<P>>::empty(),
            t.owner() == socket_id,
    {
        PeerTable { socket_id, slots: PeerSlots::empty() }
    }

    /// The index of the socket whose peers this registry holds.
    pub fn socket_id(&self) -> (r: usize)
        ensures
            r == self.owner(),
    {
        self.socket_id
    }

    /// Whether a peer is registered for `addr`.
    pub fn contains(&self, addr: &PeerAddr) -> (r: bool)
        ensures
            r == self@.contains_key(*addr),
    {
        self.slots.contains(addr)
    }

    /// The time of the last datagram recorded for `addr`, if it is registered.
    pub fn last_recv_sec(&self, addr: &PeerAddr) -> (r: Option<i64>)
        ensures
            r == (if self@.contains_key(*addr) {
                Some(self@[*addr].0)
            } else {
                None
            }),
    {
        proof {
            use_type_invariant(self);
        }
        self.slots.last_recv_sec(addr)
    }

    /// The handle registered for `addr`, if any.
    pub fn get(&self, addr: &PeerAddr) -> (r: Option<&P>)
        ensures
            r == (if self@.contains_key(*addr) {
                Some(&self@[*addr].1)
            } else {
                None
            }),
    {
        proof {
            use_type_invariant(self);
        }
        self.slots.get(addr)
    }

    /// Record a datagram from `addr` at time `now`, if `addr` is registered.
    ///
    /// Returns whether it is. The time is refreshed only when `track` holds;
    /// nothing else changes.
    pub fn touch(&mut self, addr: &PeerAddr, now: i64, track: bool) -> (known: bool)
        ensures
            known == old(self)@.contains_key(*addr),
            final(self)@ == (if known && track {
                old(self)@.insert(*addr, (now, old(self)@[*addr].1))
            } else {
                old(self)@
            }),
            final(self).owner() == old(self).owner(),
    {
        proof {
            use_type_invariant(&*self);
        }
        let mut slots = PeerSlots::empty();
        std::mem::swap(&mut slots, &mut self.slots);
        let known = slots.touch(addr, now, track);
        std::mem::swap(&mut slots, &mut self.slots);
        known
    }

    /// Register a new peer for `addr`, first heard from at time `now`.
    pub fn register(&mut self, addr: PeerAddr, peer: P, now: i64)
        requires
            !old(self)@.contains_key(addr),
        ensures
            final(self)@ == old(self)@.insert(addr, (now, peer)),
            final(self).owner() == old(self).owner(),
    {
        proof {
            use_type_invariant(&*self);
        }
        let mut slots = PeerSlots::empty();
        std::mem::swap(&mut slots, &mut self.slots);
        slots.register(addr, peer, now);
        std::mem::swap(&mut slots, &mut self.slots);
    }

    /// Remove the peer registered for `addr`, returning its handle if it was.
    pub fn remove(&mut self, addr: &PeerAddr) -> (r: Option<P>)
        ensures
            final(self)@ == old(self)@.remove(*addr),
            r == (if old(self)@.contains_key(*addr) {
                Some(old(self)@[*addr].1)
            } else {
                None
            }),
            final(self).owner() == old(self).owner(),
    {
        proof {
            use_type_invariant(&*self);
        }
        let mut slots = PeerSlots::empty();
        std::mem::swap(&mut slots, &mut self.slots);
        let r = slots.remove(addr);
        std::mem::swap(&mut slots, &mut self.slots);
        r
    }

    /// The addresses of all registered peers that are idle at `now`, that is,
    /// silent for more than `secs` seconds, each once.
    pub fn idle_addrs(&self, now: i64, secs: u64) -> (r: Vec<PeerAddr>)
        ensures
            r@.no_duplicates(),
            r@.to_set() == idle_set(self@, now, secs),
    {
        proof {
            use_type_invariant(self);
        }
        self.slots.idle_addrs(now, secs)
    }
}

/// A datagram registers its sender: afterwards the address is known, with the
/// handle it already had, or else with the fresh one.
pub proof fn law_arrival_registers<P>(
    m: Map<PeerAddr, PeerRecord<P>>,
    addr: PeerAddr,
    now: i64,
    track: bool,
    fresh: P,
)
    ensures
        arrive(m, addr, now, track, fresh).contains_key(addr),
        arrive(m, addr, now, track, fresh)[addr].1 == (if m.contains_key(addr) {
            m[addr].1
        } else {
            fresh
        }),
{
}

/// One peer per address: a second datagram from the same address finds the
/// peer that the first one registered, whatever handle it would have been
/// offered.
pub proof fn law_one_peer_per_address<P>(
    m: Map<PeerAddr, PeerRecord<P>>,
    addr: PeerAddr,
    t1: i64,
    t2: i64,
    track: bool,
    first: P,
    second: P,
)
    ensures
        ({
            let m1 = arrive(m, addr, t1, track, first);
            &&& m1.contains_key(addr)
            &&& arrive(m1, addr, t2, track, second)[addr].1 == m1[addr].1
            &&& arrive(m1, addr, t2, track, second).dom() == m1.dom()
        }),
{
    let m1 = arrive(m, addr, t1, track, first);
    assert(arrive(m1, addr, t2, track, second).dom() =~= m1.dom());
}

/// Once a peer is removed (its handler has finished), the next datagram from
/// its address registers a fresh peer, timed at its arrival.
pub proof fn law_removed_peer_is_replaced<P>(
    m: Map<PeerAddr, PeerRecord<P>>,
    addr: PeerAddr,
    now: i64,
    track: bool,
    fresh: P,
)
    ensures
        arrive(m.remove(addr), addr, now, track, fresh)[addr] == (now, fresh),
{
}

/// A datagram from one address leaves every other peer as it was.
pub proof fn law_arrival_leaves_others<P>(
    m: Map<PeerAddr, PeerRecord<P>>,
    addr: PeerAddr,
    other: PeerAddr,
    now: i64,
    track: bool,
    fresh: P,
)
    requires
        other != addr,
    ensures
        arrive(m, addr, now, track, fresh).contains_key(other) == m.contains_key(other),
        m.contains_key(other) ==> arrive(m, addr, now, track, fresh)[other] == m[other],
{
}

/// With idle tracking on, a peer that has just been heard from is not idle at
/// that moment, whatever the timeout.
pub proof fn law_fresh_datagram_not_idle<P>(
    m: Map<PeerAddr, PeerRecord<P>>,
    addr: PeerAddr,
    now: i64,
    secs: u64,
    fresh: P,
)
    ensures
        !idle_set(arrive(m, addr, now, true, fresh), now, secs).contains(addr),
{
}

/// With idle tracking off, a datagram from a known peer changes nothing.
pub proof fn law_untracked_datagram_keeps_registry<P>(
    m: Map<PeerAddr, PeerRecord<P>>,
    addr: PeerAddr,
    now: i64,
    fresh: P,
)
    requires
        m.contains_key(addr),
    ensures
        arrive(m, addr, now, false, fresh) == m,
{
}

/// A peer that is idle stays idle as time goes on, until it is heard from.
pub proof fn law_idle_persists<P>(
    m: Map<PeerAddr, PeerRecord<P>>,
    addr: PeerAddr,
    t1: i64,
    t2: i64,
    secs: u64,
)
    requires
        t1 <= t2,
        idle_set(m, t1, secs).contains(addr),
    ensures
        idle_set(m, t2, secs).contains(addr),
{
}

/// A datagram stamps its peer with its time of arrival: when tracking is on,
/// or when it is the first from its address, the peer's last-receive time
/// afterwards is `now`, whatever it was before.
pub proof fn law_arrival_stamps_time<P>(
    m: Map<PeerAddr, PeerRecord<P>>,
    addr: PeerAddr,
    now: i64,
    track: bool,
    fresh: P,
)
    requires
        track || !m.contains_key(addr),
    ensures
        arrive(m, addr, now, track, fresh)[addr].0 == now,
{
}

/// A peer that keeps sending is not closed: with tracking on, a sweep made no
/// more than `secs` seconds after a datagram from `addr` does not find that
/// peer idle, however old its time was before the datagram.
pub proof fn law_active_peer_not_idle<P>(
    m: Map<PeerAddr, PeerRecord<P>>,
    addr: PeerAddr,
    t_recv: i64,
    t_sweep: i64,
    secs: u64,
    fresh: P,
)
    requires
        t_sweep - t_recv <= secs,
    ensures
        !idle_set(arrive(m, addr, t_recv, true, fresh), t_sweep, secs).contains(addr),
{
}

/// A silent peer is closed: a sweep made more than `secs` seconds after the
/// datagram that last stamped a peer finds it idle.
pub proof fn law_silent_peer_idle<P>(
    m: Map<PeerAddr, PeerRecord<P>>,
    addr: PeerAddr,
    t_recv: i64,
    t_sweep: i64,
    secs: u64,
    track: bool,
    fresh: P,
)
    requires
        track || !m.contains_key(addr),
        t_sweep - t_recv > secs,
    ensures
        idle_set(arrive(m, addr, t_recv, track, fresh), t_sweep, secs).contains(addr),
{
}

/// The registry after datagrams from `addr` arrive at the times `times`, in
/// order.
pub open spec fn arrive_all<P>(
    m: Map<PeerAddr, PeerRecord<P>>,
    addr: PeerAddr,
    times: Seq<i64>,
    track: bool,
    fresh: P,
) -> Map<PeerAddr, PeerRecord<P>>
    decreases times.len(),
{
    if times.len() == 0 {
        m
    } else {
        arrive(arrive_all(m, addr, times.drop_last(), track, fresh), addr, times.last(), track, fresh)
    }
}

/// The last-receive time of a peer: after datagrams at `times` from an
/// address that had no peer, the peer is the one the first datagram
/// registered, and its time is that of the last datagram with idle tracking
/// on, of the first (its creation) with it off.
pub proof fn law_last_receive_time<P>(
    m: Map<PeerAddr, PeerRecord<P>>,
    addr: PeerAddr,
    times: Seq<i64>,
    track: bool,
    fresh: P,
)
    requires
        !m.contains_key(addr),
        times.len() > 0,
    ensures
        arrive_all(m, addr, times, track, fresh).contains_key(addr),
        arrive_all(m, addr, times, track, fresh)[addr] == (if track {
            times.last()
        } else {
            times[0]
        }, fresh),
    decreases times.len(),
{
    let prev = arrive_all(m, addr, times.drop_last(), track, fresh);
    assert(arrive_all(m, addr, times, track, fresh) == arrive(prev, addr, times.last(), track, fresh));
    if times.len() > 1 {
        law_last_receive_time(m, addr, times.drop_last(), track, fresh);
        assert(times.drop_last()[0] == times[0]);
    } else {
        assert(prev == m);
        assert(times.last() == times[0]);
    }
}

/// The registry after datagrams from `addr` arrive as `events`, in order:
/// each the time it arrived and whether idle tracking was on for it.
pub open spec fn arrive_each<P>(
    m: Map<PeerAddr, PeerRecord<P>>,
    addr: PeerAddr,
    events: Seq<(i64, bool)>,
    fresh: P,
) -> Map<PeerAddr, PeerRecord<P>>
    decreases events.len(),
{
    if events.len() == 0 {
        m
    } else {
        arrive(
            arrive_each(m, addr, events.drop_last(), fresh),
            addr,
            events.last().0,
            events.last().1,
            fresh,
        )
    }
}

/// The time of the last of `events` after the first that had tracking on,
/// or the time of the first when there is none.
pub open spec fn last_tracked_time(events: Seq<(i64, bool)>) -> i64
    decreases events.len(),
{
    if events.len() <= 1 {
        events[0].0
    } else if events.last().1 {
        events.last().0
    } else {
        last_tracked_time(events.drop_last())
    }
}

/// The last-receive time over mixed arrivals: after datagrams from an
/// address that had no peer, some with idle tracking on and some off, the
/// peer is the one the first datagram registered, and its time is that of
/// the last tracked datagram after the first, or the first's when there is
/// none.
pub proof fn law_last_receive_time_mixed<P>(
    m: Map<PeerAddr, PeerRecord<P>>,
    addr: PeerAddr,
    events: Seq<(i64, bool)>,
    fresh: P,
)
    requires
        !m.contains_key(addr),
        events.len() > 0,
    ensures
        arrive_each(m, addr, events, fresh).contains_key(addr),
        arrive_each(m, addr, events, fresh)[addr] == (last_tracked_time(events), fresh),
    decreases events.len(),
{
    let prev = arrive_each(m, addr, events.drop_last(), fresh);
    assert(arrive_each(m, addr, events, fresh) == arrive(
        prev,
        addr,
        events.last().0,
        events.last().1,
        fresh,
    ));
    if events.len() > 1 {
        law_last_receive_time_mixed(m, addr, events.drop_last(), fresh);
    } else {
        assert(prev == m);
        assert(events.last() == events[0]);
    }
}

} // verus!

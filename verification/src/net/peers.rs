//! Peer bookkeeping: who is known, who is connected, who validates this epoch, and who has
//! gone silent.
//!
//! Times are milliseconds on the caller's clock.

use vstd::prelude::*;
use crate::arith::{sat_add, sat_add_spec};
use crate::primitives::Pubkey;
use crate::net::config::ConsensusNetConfig;
use crate::net::error::ConsensusNetError;
use crate::net::message::PeerInfo;

verus! {

/// The bookkeeping of one peer.
#[derive(Debug, Clone, Copy)]
pub struct PeerConnection {
    /// Identity and address.
    pub info: PeerInfo,
    /// When the last message from the peer arrived.
    pub last_seen_ms: u64,
    /// Messages sent to the peer (saturating).
    pub messages_sent: u64,
    /// Messages received from the peer (saturating).
    pub messages_received: u64,
    /// Whether the connection is believed alive.
    pub is_connected: bool,
}

/// Whole seconds since the peer was last heard from, as of `now_ms`.
pub open spec fn silence_spec(p: PeerConnection, now_ms: u64) -> int {
    (if now_ms >= p.last_seen_ms { now_ms - p.last_seen_ms } else { 0 }) / 1000
}

impl PeerConnection {
    /// The record of a freshly discovered peer, seen at `now_ms`, not yet connected.
    pub fn new(info: PeerInfo, now_ms: u64) -> (r: Self)
        ensures
            r == (PeerConnection { info, last_seen_ms: now_ms, messages_sent: 0, messages_received: 0, is_connected: false }),
    {
        PeerConnection { info, last_seen_ms: now_ms, messages_sent: 0, messages_received: 0, is_connected: false }
    }

    /// Counts a message received at `now_ms`.
    pub fn record_received(&mut self, now_ms: u64)
        ensures
            *final(self) == (PeerConnection {
                messages_received: sat_add_spec(old(self).messages_received as int, 1) as u64,
                last_seen_ms: now_ms,
                ..*old(self)
            }),
    {
        self.messages_received = sat_add(self.messages_received, 1);
        self.last_seen_ms = now_ms;
    }

    /// Counts a message sent.
    pub fn record_sent(&mut self)
        ensures
            *final(self) == (PeerConnection { messages_sent: sat_add_spec(old(self).messages_sent as int, 1) as u64, ..*old(self) }),
    {
        self.messages_sent = sat_add(self.messages_sent, 1);
    }

    /// Whole seconds since the peer was last heard from.
    pub fn silence_secs(&self, now_ms: u64) -> (r: u64)
        ensures
            r == silence_spec(*self, now_ms),
    {
        now_ms.saturating_sub(self.last_seen_ms) / 1000
    }
}

/// The position of the peer `k` in `s`, or -1.
pub open spec fn peer_index(s: Seq<PeerConnection>, k: Pubkey) -> int
    decreases s.len(),
{
    if s.len() == 0 {
        -1
    } else if s.last().info.pubkey == k {
        s.len() - 1
    } else {
        peer_index(s.drop_last(), k)
    }
}

/// No peer is recorded twice.
pub open spec fn peers_distinct(s: Seq<PeerConnection>) -> bool {
    forall|i: int, j: int| 0 <= i < j < s.len() ==> s[i].info.pubkey != s[j].info.pubkey
}

/// Whether a peer is a connected active validator.
pub open spec fn is_connected_validator(p: PeerConnection, active: Seq<Pubkey>) -> bool {
    p.is_connected && active.contains(p.info.pubkey)
}

/// Whether a peer is connected and has been silent for longer than `timeout_secs`.
pub open spec fn is_stale(p: PeerConnection, now_ms: u64, timeout_secs: u64) -> bool {
    p.is_connected && silence_spec(p, now_ms) > timeout_secs
}

/// The peers after stale ones are marked disconnected.
pub open spec fn without_stale(s: Seq<PeerConnection>, now_ms: u64, timeout_secs: u64) -> Seq<PeerConnection> {
    s.map_values(|p: PeerConnection| if is_stale(p, now_ms, timeout_secs) { PeerConnection { is_connected: false, ..p } } else { p })
}

/// The set of peers of the consensus network.
#[derive(Debug)]
pub struct PeerManager {
    /// The known peers; no identity occurs twice.
    pub peers: Vec<PeerConnection>,
    /// The active validators of the current epoch; no key occurs twice.
    pub active_validators: Vec<Pubkey>,
    /// The network configuration.
    pub config: ConsensusNetConfig,
}

impl PeerManager {
    /// The manager's invariant: no peer and no validator recorded twice.
    pub open spec fn wf(&self) -> bool {
        &&& peers_distinct(self.peers@)
        &&& self.active_validators@.no_duplicates()
    }

    /// A manager with no peers.
    pub fn new(config: ConsensusNetConfig) -> (r: Self)
        ensures
            r.wf(),
            r.peers@ == Seq::<PeerConnection>::empty(),
            r.active_validators@ == Seq::<Pubkey>::empty(),
            r.config == config,
    {
        PeerManager { peers: Vec::new(), active_validators: Vec::new(), config }
    }

    fn find(&self, pubkey: &Pubkey) -> (r: Option<usize>)
        requires
            self.wf(),
        ensures
            r matches Some(i) ==> i as int == peer_index(self.peers@, *pubkey) && i < self.peers@.len(),
            r is None ==> peer_index(self.peers@, *pubkey) == -1,
    {
        let mut i: usize = 0;
        while i < self.peers.len()
            invariant
                0 <= i <= self.peers@.len(),
                peers_distinct(self.peers@),
                forall|j: int| 0 <= j < i ==> self.peers@[j].info.pubkey != *pubkey,
            decreases self.peers@.len() - i,
        {
            if self.peers[i].info.pubkey == *pubkey {
                proof {
                    lemma_peer_index(self.peers@, *pubkey, i as int);
                }
                return Some(i);
            }
            i = i + 1;
        }
        proof {
            lemma_peer_index_absent(self.peers@, *pubkey);
        }
        None
    }

    /// The number of known peers.
    pub fn peer_count(&self) -> (r: usize)
        ensures
            r == self.peers@.len(),
    {
        self.peers.len()
    }

    /// The number of connected peers.
    pub fn connected_count(&self) -> (r: usize)
        ensures
            r == self.peers@.filter(|p: PeerConnection| p.is_connected).len(),
    {
        let ghost pred = |p: PeerConnection| p.is_connected;
        let mut n: usize = 0;
        let mut i: usize = 0;
        while i < self.peers.len()
            invariant
                0 <= i <= self.peers@.len(),
                pred == (|p: PeerConnection| p.is_connected),
                n == self.peers@.take(i as int).filter(pred).len(),
                n <= i,
            decreases self.peers@.len() - i,
        {
            proof {
                assert(self.peers@.take(i + 1) =~= self.peers@.take(i as int).push(self.peers@[i as int]));
                self.peers@.take(i as int).lemma_filter_push(self.peers@[i as int], pred);
            }
            if self.peers[i].is_connected {
                n = n + 1;
            }
            i = i + 1;
        }
        proof {
            assert(self.peers@.take(self.peers@.len() as int) =~= self.peers@);
        }
        n
    }

    /// Registers a discovered peer. A known peer has its identity, address and stake replaced
    /// and keeps its connection state; a new one is refused at the peer limit, else recorded
    /// as disconnected and, if it validates, added to the active validators.
    pub fn add_peer(&mut self, info: PeerInfo, now_ms: u64) -> (r: Result<(), ConsensusNetError>)
        requires
            old(self).wf(),
        ensures
            final(self).wf(),
            final(self).config == old(self).config,
            ({
                let s = old(self).peers@;
                let i = peer_index(s, info.pubkey);
                if i >= 0 {
                    &&& r is Ok
                    &&& final(self).peers@ == s.update(i, PeerConnection { info, ..s[i] })
                    &&& final(self).active_validators@ == old(self).active_validators@
                } else if s.len() >= old(self).config.max_peers {
                    &&& r matches Err(ConsensusNetError::MaxPeersReached(n)) && n == old(self).config.max_peers
                    &&& final(self).peers@ == s
                    &&& final(self).active_validators@ == old(self).active_validators@
                } else {
                    &&& r is Ok
                    &&& final(self).peers@ == s.push(PeerConnection {
                        info,
                        last_seen_ms: now_ms,
                        messages_sent: 0,
                        messages_received: 0,
                        is_connected: false,
                    })
                    &&& final(self).active_validators@.to_set() == (if info.is_active_validator {
                        old(self).active_validators@.to_set().insert(info.pubkey)
                    } else {
                        old(self).active_validators@.to_set()
                    })
                }
            }),
    {
        let ghost s = self.peers@;
        match self.find(&info.pubkey) {
            Some(i) => {
                let mut conn = self.peers[i];
                conn.info = info;
                self.peers.set(i, conn);
                proof {
                    lemma_peer_index_found(s, info.pubkey);
                    let t = self.peers@;
                    assert forall|a: int, b: int| 0 <= a < b < t.len() implies t[a].info.pubkey != t[b].info.pubkey by {
                        assert(s[a].info.pubkey != s[b].info.pubkey);
                    }
                }
                Ok(())
            },
            None => {
                if self.peers.len() >= self.config.max_peers {
                    return Err(ConsensusNetError::MaxPeersReached(self.config.max_peers));
                }
                let pubkey = info.pubkey;
                let is_validator = info.is_active_validator;
                self.peers.push(PeerConnection::new(info, now_ms));
                proof {
                    lemma_peer_index_absent_all(s, pubkey);
                    let t = self.peers@;
                    assert forall|a: int, b: int| 0 <= a < b < t.len() implies t[a].info.pubkey != t[b].info.pubkey by {
                        if b < s.len() {
                            assert(s[a].info.pubkey != s[b].info.pubkey);
                        } else {
                            assert(t[a] == s[a]);
                        }
                    }
                }
                if is_validator {
                    insert_key(&mut self.active_validators, pubkey);
                }
                Ok(())
            },
        }
    }

    /// Forgets a peer and its place among the active validators.
    pub fn remove_peer(&mut self, pubkey: &Pubkey)
        requires
            old(self).wf(),
        ensures
            final(self).wf(),
            final(self).config == old(self).config,
            ({
                let s = old(self).peers@;
                let i = peer_index(s, *pubkey);
                if i >= 0 {
                    &&& final(self).peers@ == s.remove(i)
                    &&& final(self).active_validators@.to_set() == old(self).active_validators@.to_set().remove(*pubkey)
                } else {
                    &&& final(self).peers@ == s
                    &&& final(self).active_validators@ == old(self).active_validators@
                }
            }),
    {
        let ghost s = self.peers@;
        match self.find(pubkey) {
            Some(i) => {
                self.peers.remove(i);
                proof {
                    let t = self.peers@;
                    assert forall|a: int, b: int| 0 <= a < b < t.len() implies t[a].info.pubkey != t[b].info.pubkey by {
                        let oa = if a < i { a } else { a + 1 };
                        let ob = if b < i { b } else { b + 1 };
                        assert(t[a] == s[oa]);
                        assert(t[b] == s[ob]);
                    }
                }
                remove_key(&mut self.active_validators, pubkey);
            },
            None => {},
        }
    }

    /// Marks a known peer connected, seen at `now_ms`; an unknown peer is an error.
    pub fn mark_connected(&mut self, pubkey: &Pubkey, now_ms: u64) -> (r: Result<(), ConsensusNetError>)
        requires
            old(self).wf(),
        ensures
            final(self).wf(),
            final(self).config == old(self).config,
            final(self).active_validators == old(self).active_validators,
            ({
                let s = old(self).peers@;
                let i = peer_index(s, *pubkey);
                if i >= 0 {
                    &&& r is Ok
                    &&& final(self).peers@ == s.update(i, PeerConnection { is_connected: true, last_seen_ms: now_ms, ..s[i] })
                } else {
                    &&& r matches Err(ConsensusNetError::UnknownPeer(k)) && k == *pubkey
                    &&& final(self).peers@ == s
                }
            }),
    {
        let ghost s = self.peers@;
        match self.find(pubkey) {
            Some(i) => {
                let mut conn = self.peers[i];
                conn.is_connected = true;
                conn.last_seen_ms = now_ms;
                self.peers.set(i, conn);
                proof {
                    let t = self.peers@;
                    assert forall|a: int, b: int| 0 <= a < b < t.len() implies t[a].info.pubkey != t[b].info.pubkey by {
                        assert(s[a].info.pubkey != s[b].info.pubkey);
                    }
                }
                Ok(())
            },
            None => Err(ConsensusNetError::UnknownPeer(*pubkey)),
        }
    }

    /// Marks a peer disconnected; nothing happens for an unknown peer.
    pub fn mark_disconnected(&mut self, pubkey: &Pubkey)
        requires
            old(self).wf(),
        ensures
            final(self).wf(),
            final(self).config == old(self).config,
            final(self).active_validators == old(self).active_validators,
            ({
                let s = old(self).peers@;
                let i = peer_index(s, *pubkey);
                &&& i >= 0 ==> final(self).peers@ == s.update(i, PeerConnection { is_connected: false, ..s[i] })
                &&& i < 0 ==> final(self).peers@ == s
            }),
    {
        let ghost s = self.peers@;
        match self.find(pubkey) {
            Some(i) => {
                let mut conn = self.peers[i];
                conn.is_connected = false;
                self.peers.set(i, conn);
                proof {
                    let t = self.peers@;
                    assert forall|a: int, b: int| 0 <= a < b < t.len() implies t[a].info.pubkey != t[b].info.pubkey by {
                        assert(s[a].info.pubkey != s[b].info.pubkey);
                    }
                }
            },
            None => {},
        }
    }

    /// The record of a peer, if known.
    pub fn get_peer(&self, pubkey: &Pubkey) -> (r: Option<&PeerConnection>)
        requires
            self.wf(),
        ensures
            ({
                let i = peer_index(self.peers@, *pubkey);
                &&& i >= 0 ==> (r matches Some(p) && *p == self.peers@[i])
                &&& i < 0 ==> r is None
            }),
    {
        match self.find(pubkey) {
            Some(i) => Some(&self.peers[i]),
            None => None,
        }
    }

    /// The connected peers that are active validators, in the order they were added.
    pub fn connected_validators(&self) -> (r: Vec<PeerConnection>)
        ensures
            r@ == self.peers@.filter(|p: PeerConnection| is_connected_validator(p, self.active_validators@)),
    {
        let ghost pred = |p: PeerConnection| is_connected_validator(p, self.active_validators@);
        let mut out: Vec<PeerConnection> = Vec::new();
        let mut i: usize = 0;
        while i < self.peers.len()
            invariant
                0 <= i <= self.peers@.len(),
                pred == (|p: PeerConnection| is_connected_validator(p, self.active_validators@)),
                out@ == self.peers@.take(i as int).filter(pred),
            decreases self.peers@.len() - i,
        {
            let p = self.peers[i];
            proof {
                assert(self.peers@.take(i + 1) =~= self.peers@.take(i as int).push(p));
                self.peers@.take(i as int).lemma_filter_push(p, pred);
            }
            if p.is_connected && contains_key(&self.active_validators, &p.info.pubkey) {
                out.push(p);
            }
            i = i + 1;
        }
        proof {
            assert(self.peers@.take(self.peers@.len() as int) =~= self.peers@);
        }
        out
    }

    /// The connected peers, in the order they were added.
    pub fn connected_peers(&self) -> (r: Vec<PeerConnection>)
        ensures
            r@ == self.peers@.filter(|p: PeerConnection| p.is_connected),
    {
        let ghost pred = |p: PeerConnection| p.is_connected;
        let mut out: Vec<PeerConnection> = Vec::new();
        let mut i: usize = 0;
        while i < self.peers.len()
            invariant
                0 <= i <= self.peers@.len(),
                pred == (|p: PeerConnection| p.is_connected),
                out@ == self.peers@.take(i as int).filter(pred),
            decreases self.peers@.len() - i,
        {
            let p = self.peers[i];
            proof {
                assert(self.peers@.take(i + 1) =~= self.peers@.take(i as int).push(p));
                self.peers@.take(i as int).lemma_filter_push(p, pred);
            }
            if p.is_connected {
                out.push(p);
            }
            i = i + 1;
        }
        proof {
            assert(self.peers@.take(self.peers@.len() as int) =~= self.peers@);
        }
        out
    }

    /// The keys of the connected active validators, in the order they were added.
    pub fn connected_validator_keys(&self) -> (r: Vec<Pubkey>)
        ensures
            r@ == self.peers@.filter(|p: PeerConnection| is_connected_validator(p, self.active_validators@)).map_values(
                |p: PeerConnection| p.info.pubkey,
            ),
    {
        let v = self.connected_validators();
        let mut out: Vec<Pubkey> = Vec::new();
        let mut i: usize = 0;
        while i < v.len()
            invariant
                0 <= i <= v@.len(),
                out@ == v@.take(i as int).map_values(|p: PeerConnection| p.info.pubkey),
            decreases v@.len() - i,
        {
            out.push(v[i].info.pubkey);
            proof {
                assert(v@.take(i + 1) =~= v@.take(i as int).push(v@[i as int]));
                assert(out@ =~= v@.take(i + 1).map_values(|p: PeerConnection| p.info.pubkey));
            }
            i = i + 1;
        }
        proof {
            assert(v@.take(v@.len() as int) =~= v@);
        }
        out
    }

    /// Replaces the active validators (at an epoch boundary) with the given keys, each once.
    pub fn update_active_validators(&mut self, validators: Vec<Pubkey>)
        requires
            old(self).wf(),
        ensures
            final(self).wf(),
            final(self).peers == old(self).peers,
            final(self).config == old(self).config,
            final(self).active_validators@.to_set() == validators@.to_set(),
    {
        let mut set: Vec<Pubkey> = Vec::new();
        let mut i: usize = 0;
        while i < validators.len()
            invariant
                0 <= i <= validators@.len(),
                set@.no_duplicates(),
                set@.to_set() == validators@.take(i as int).to_set(),
            decreases validators@.len() - i,
        {
            let ghost before = set@.to_set();
            insert_key(&mut set, validators[i]);
            proof {
                assert(validators@.take(i + 1) =~= validators@.take(i as int).push(validators@[i as int]));
                validators@.take(i as int).lemma_push_to_set_commute(validators@[i as int]);
            }
            i = i + 1;
        }
        proof {
            assert(validators@.take(validators@.len() as int) =~= validators@);
        }
        self.active_validators = set;
    }

    /// Marks disconnected every connected peer silent for longer than the peer timeout as of
    /// `now_ms`, and returns their keys in the order they were added.
    pub fn evict_stale_peers(&mut self, now_ms: u64) -> (r: Vec<Pubkey>)
        requires
            old(self).wf(),
        ensures
            final(self).wf(),
            final(self).config == old(self).config,
            final(self).active_validators == old(self).active_validators,
            final(self).peers@ == without_stale(old(self).peers@, now_ms, old(self).config.peer_timeout_secs),
            r@ == old(self).peers@.filter(|p: PeerConnection| is_stale(p, now_ms, old(self).config.peer_timeout_secs)).map_values(
                |p: PeerConnection| p.info.pubkey,
            ),
    {
        let timeout = self.config.peer_timeout_secs;
        let ghost s = self.peers@;
        let ghost ws = without_stale(s, now_ms, timeout);
        let ghost pred = |p: PeerConnection| is_stale(p, now_ms, timeout);
        let mut stale: Vec<Pubkey> = Vec::new();
        let mut i: usize = 0;
        while i < self.peers.len()
            invariant
                0 <= i <= self.peers@.len(),
                self.peers@.len() == s.len(),
                s == old(self).peers@,
                self.config == old(self).config,
                self.active_validators == old(self).active_validators,
                ws.len() == s.len(),
                ws == without_stale(s, now_ms, timeout),
                pred == (|p: PeerConnection| is_stale(p, now_ms, timeout)),
                forall|j: int| 0 <= j < i ==> self.peers@[j] == ws[j],
                forall|j: int| i <= j < s.len() ==> self.peers@[j] == s[j],
                stale@ == s.take(i as int).filter(pred).map_values(|p: PeerConnection| p.info.pubkey),
            decreases s.len() - i,
        {
            let p = self.peers[i];
            proof {
                assert(s.take(i + 1) =~= s.take(i as int).push(p));
                s.take(i as int).lemma_filter_push(p, pred);
            }
            if p.is_connected && p.silence_secs(now_ms) > timeout {
                let mut q = p;
                q.is_connected = false;
                self.peers.set(i, q);
                stale.push(p.info.pubkey);
                proof {
                    assert(q == ws[i as int]);
                    assert(stale@ =~= s.take(i + 1).filter(pred).map_values(|p: PeerConnection| p.info.pubkey));
                }
            } else {
                proof {
                    assert(p == ws[i as int]);
                    assert(stale@ =~= s.take(i + 1).filter(pred).map_values(|p: PeerConnection| p.info.pubkey));
                }
            }
            i = i + 1;
        }
        proof {
            assert(s.take(s.len() as int) =~= s);
            assert(self.peers@ =~= ws);
            lemma_without_stale_distinct(s, now_ms, timeout);
        }
        stale
    }
}

proof fn lemma_without_stale_distinct(s: Seq<PeerConnection>, now_ms: u64, timeout: u64)
    requires
        peers_distinct(s),
    ensures
        peers_distinct(without_stale(s, now_ms, timeout)),
{
    let t = without_stale(s, now_ms, timeout);
    assert forall|a: int, b: int| 0 <= a < b < t.len() implies t[a].info.pubkey != t[b].info.pubkey by {
        assert(t[a].info.pubkey == s[a].info.pubkey);
        assert(t[b].info.pubkey == s[b].info.pubkey);
    }
}

/// Whether `keys` holds `k`.
pub fn contains_key(keys: &Vec<Pubkey>, k: &Pubkey) -> (r: bool)
    ensures
        r == keys@.contains(*k),
{
    let mut i: usize = 0;
    while i < keys.len()
        invariant
            0 <= i <= keys@.len(),
            forall|j: int| 0 <= j < i ==> keys@[j] != *k,
        decreases keys@.len() - i,
    {
        if keys[i] == *k {
            return true;
        }
        i = i + 1;
    }
    false
}

/// Adds `k` to a list of distinct keys unless it is there.
fn insert_key(keys: &mut Vec<Pubkey>, k: Pubkey)
    requires
        old(keys)@.no_duplicates(),
    ensures
        final(keys)@.no_duplicates(),
        final(keys)@.to_set() == old(keys)@.to_set().insert(k),
{
    if !contains_key(keys, &k) {
        let ghost s = keys@;
        keys.push(k);
        proof {
            s.lemma_push_to_set_commute(k);
            let t = keys@;
            assert forall|a: int, b: int| 0 <= a < t.len() && 0 <= b < t.len() && a != b implies t[a] != t[b] by {
                if a < s.len() && b < s.len() {
                } else if a == s.len() {
                    assert(s.contains(t[b]));
                } else {
                    assert(s.contains(t[a]));
                }
            }
        }
    } else {
        proof {
            assert(keys@.to_set().insert(k) =~= keys@.to_set());
        }
    }
}

/// Removes `k` from a list of distinct keys.
fn remove_key(keys: &mut Vec<Pubkey>, k: &Pubkey)
    requires
        old(keys)@.no_duplicates(),
    ensures
        final(keys)@.no_duplicates(),
        final(keys)@.to_set() == old(keys)@.to_set().remove(*k),
{
    let ghost s = keys@;
    let mut i: usize = 0;
    while i < keys.len()
        invariant
            keys@ == s,
            s == old(keys)@,
            s.no_duplicates(),
            0 <= i <= s.len(),
            forall|j: int| 0 <= j < i ==> s[j] != *k,
        decreases s.len() - i,
    {
        if keys[i] == *k {
            keys.remove(i);
            proof {
                let t = keys@;
                assert(t == s.remove(i as int));
                assert forall|a: int, b: int| 0 <= a < t.len() && 0 <= b < t.len() && a != b implies t[a] != t[b] by {
                    let oa = if a < i { a } else { a + 1 };
                    let ob = if b < i { b } else { b + 1 };
                    assert(t[a] == s[oa]);
                    assert(t[b] == s[ob]);
                }
                assert forall|x: Pubkey| t.to_set().contains(x) == s.to_set().remove(*k).contains(x) by {
                    if t.contains(x) {
                        let a = choose|a: int| 0 <= a < t.len() && t[a] == x;
                        let oa = if a < i { a } else { a + 1 };
                        assert(t[a] == s[oa]);
                        assert(oa != i);
                        assert(s.contains(x));
                    }
                    if s.contains(x) && x != *k {
                        let a = choose|a: int| 0 <= a < s.len() && s[a] == x;
                        assert(a != i);
                        let na = if a < i { a } else { a - 1 };
                        assert(t[na] == x);
                    }
                }
                assert(t.to_set() =~= s.to_set().remove(*k));
            }
            assert(keys@.to_set() == old(keys)@.to_set().remove(*k));
            return;
        }
        i = i + 1;
    }
    proof {
        assert(!s.contains(*k));
        assert(s.to_set().remove(*k) =~= s.to_set());
    }
}

proof fn lemma_peer_index(s: Seq<PeerConnection>, k: Pubkey, i: int)
    requires
        peers_distinct(s),
        0 <= i < s.len(),
        s[i].info.pubkey == k,
    ensures
        peer_index(s, k) == i,
    decreases s.len(),
{
    if i < s.len() - 1 {
        assert(s.last().info.pubkey != k);
        lemma_peer_index(s.drop_last(), k, i);
    }
}

proof fn lemma_peer_index_absent(s: Seq<PeerConnection>, k: Pubkey)
    requires
        forall|j: int| 0 <= j < s.len() ==> s[j].info.pubkey != k,
    ensures
        peer_index(s, k) == -1,
    decreases s.len(),
{
    if s.len() > 0 {
        lemma_peer_index_absent(s.drop_last(), k);
    }
}

proof fn lemma_peer_index_absent_all(s: Seq<PeerConnection>, k: Pubkey)
    requires
        peer_index(s, k) == -1,
    ensures
        forall|j: int| 0 <= j < s.len() ==> s[j].info.pubkey != k,
    decreases s.len(),
{
    if s.len() > 0 {
        lemma_peer_index_absent_all(s.drop_last(), k);
        assert forall|j: int| 0 <= j < s.len() implies s[j].info.pubkey != k by {
            if j < s.len() - 1 {
                assert(s.drop_last()[j] == s[j]);
            }
        }
    }
}

/// The position `peer_index` gives holds the peer.
pub proof fn lemma_peer_index_found(s: Seq<PeerConnection>, k: Pubkey)
    ensures
        -1 <= peer_index(s, k) < s.len(),
        peer_index(s, k) >= 0 ==> s[peer_index(s, k)].info.pubkey == k,
    decreases s.len(),
{
    if s.len() > 0 {
        lemma_peer_index_found(s.drop_last(), k);
    }
}

/// The peer limit holds: adding a peer never takes the manager past `max_peers` unless it was
/// already there, and re-announcing a known peer never changes the count.
pub proof fn law_peer_limit(s: Seq<PeerConnection>, info: PeerInfo, max_peers: usize, now_ms: u64)
    requires
        peers_distinct(s),
    ensures
        ({
            let i = peer_index(s, info.pubkey);
            let after = if i >= 0 {
                s.update(i, PeerConnection { info, ..s[i] })
            } else if s.len() >= max_peers {
                s
            } else {
                s.push(PeerConnection { info, last_seen_ms: now_ms, messages_sent: 0, messages_received: 0, is_connected: false })
            };
            &&& after.len() <= if s.len() > max_peers { s.len() as int } else { max_peers as int }
            &&& i >= 0 ==> after.len() == s.len()
        }),
{
    lemma_peer_index_found(s, info.pubkey);
}

} // verus!

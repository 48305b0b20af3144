//! The decisions of block catch-up: which heights to request next, which responses complete a
//! request, which requests timed out and whether to retry them, and which peer to ask.
//!
//! Sending requests is the caller's work: it asks [`BlockSyncer::next_request`] for a height,
//! picks a peer with [`pick_peer`], sends, and records a successful send with
//! [`BlockSyncer::record_request`]. Times are milliseconds on the caller's clock.

use vstd::prelude::*;
use crate::primitives::Pubkey;
use crate::net::config::ConsensusNetConfig;
use crate::net::error::ConsensusNetError;
use crate::net::message::{BlockData, NetAddr};
use crate::net::peers::{PeerConnection, PeerManager, is_connected_validator};

verus! {

/// Attempts per height before a request is given up.
pub const DEFAULT_MAX_RETRIES: u32 = 5;

/// An outstanding request for a block.
#[derive(Debug, Clone, Copy)]
pub struct PendingSyncRequest {
    /// The requested height.
    pub height: u64,
    /// The peer asked.
    pub peer: Pubkey,
    /// The peer's address, for retries.
    pub addr: NetAddr,
    /// When the request was sent.
    pub sent_at_ms: u64,
    /// Attempts so far for this height.
    pub attempts: u32,
}

/// The position of the request for height `h` in `s`, or -1.
pub open spec fn request_index(s: Seq<PendingSyncRequest>, h: u64) -> int
    decreases s.len(),
{
    if s.len() == 0 {
        -1
    } else if s.last().height == h {
        s.len() - 1
    } else {
        request_index(s.drop_last(), h)
    }
}

/// No height is requested twice.
pub open spec fn heights_distinct(s: Seq<PendingSyncRequest>) -> bool {
    forall|i: int, j: int| 0 <= i < j < s.len() ==> s[i].height != s[j].height
}

/// Whether a request sent at `sent_at_ms` has waited longer than `timeout_ms` at `now_ms`.
pub open spec fn timed_out(r: PendingSyncRequest, now_ms: u64, timeout_ms: u64) -> bool {
    (if now_ms >= r.sent_at_ms { now_ms - r.sent_at_ms } else { 0 }) > timeout_ms
}

/// The pending requests without those for height `h`.
pub open spec fn without_height(s: Seq<PendingSyncRequest>, h: u64) -> Seq<PendingSyncRequest> {
    s.filter(|r: PendingSyncRequest| r.height != h)
}

/// Tracks the requests of a catch-up session.
#[derive(Debug)]
pub struct BlockSyncer {
    config: ConsensusNetConfig,
    pending: Vec<PendingSyncRequest>,
    completed: Vec<u64>,
    max_retries: u32,
}

impl BlockSyncer {
    /// The requests in flight, in the order they were sent.
    pub closed spec fn pending_spec(&self) -> Seq<PendingSyncRequest> {
        self.pending@
    }

    /// The heights already received.
    pub closed spec fn completed_spec(&self) -> Set<u64> {
        self.completed@.to_set()
    }

    /// The configuration.
    pub closed spec fn config_spec(&self) -> ConsensusNetConfig {
        self.config
    }

    /// Attempts per height before giving up.
    pub closed spec fn max_retries_spec(&self) -> u32 {
        self.max_retries
    }

    /// Whether height `h` needs no new request: it is received or in flight.
    pub open spec fn requested(&self, h: u64) -> bool {
        self.completed_spec().contains(h) || request_index(self.pending_spec(), h) >= 0
    }

    /// The syncer's invariant: no height in flight twice, no completed height listed twice.
    pub closed spec fn wf(&self) -> bool {
        &&& heights_distinct(self.pending@)
        &&& self.completed@.no_duplicates()
    }

    /// A syncer with nothing requested, giving up after five attempts.
    pub fn new(config: ConsensusNetConfig) -> (r: Self)
        ensures
            r.wf(),
            r.pending_spec() == Seq::<PendingSyncRequest>::empty(),
            r.completed_spec() == Set::<u64>::empty(),
            r.config_spec() == config,
            r.max_retries_spec() == DEFAULT_MAX_RETRIES,
    {
        BlockSyncer { config, pending: Vec::new(), completed: Vec::new(), max_retries: DEFAULT_MAX_RETRIES }
    }

    /// The number of requests in flight.
    pub fn in_flight(&self) -> (r: usize)
        ensures
            r == self.pending_spec().len(),
    {
        self.pending.len()
    }

    /// Whether height `height` was received.
    pub fn is_completed(&self, height: u64) -> (r: bool)
        ensures
            r == self.completed_spec().contains(height),
    {
        let mut i: usize = 0;
        while i < self.completed.len()
            invariant
                0 <= i <= self.completed@.len(),
                forall|j: int| 0 <= j < i ==> self.completed@[j] != height,
            decreases self.completed@.len() - i,
        {
            if self.completed[i] == height {
                proof {
                    assert(self.completed@.to_set().contains(self.completed@[i as int]));
                }
                return true;
            }
            i = i + 1;
        }
        proof {
            assert(!self.completed@.contains(height));
        }
        false
    }

    fn find(&self, height: u64) -> (r: Option<usize>)
        requires
            self.wf(),
        ensures
            r matches Some(i) ==> i as int == request_index(self.pending@, height) && i < self.pending@.len(),
            r is None ==> request_index(self.pending@, height) == -1,
    {
        let mut i: usize = 0;
        while i < self.pending.len()
            invariant
                0 <= i <= self.pending@.len(),
                heights_distinct(self.pending@),
                forall|j: int| 0 <= j < i ==> self.pending@[j].height != height,
            decreases self.pending@.len() - i,
        {
            if self.pending[i].height == height {
                proof {
                    lemma_request_index(self.pending@, height, i as int);
                }
                return Some(i);
            }
            i = i + 1;
        }
        proof {
            lemma_request_index_absent(self.pending@, height);
        }
        None
    }

    /// Whether a request for `height` is in flight.
    pub fn is_pending(&self, height: u64) -> (r: bool)
        requires
            self.wf(),
        ensures
            r == (request_index(self.pending_spec(), height) >= 0),
    {
        self.find(height).is_some()
    }

    /// The next height of `from..=to` to request: the first one neither received nor in flight,
    /// if the number of requests in flight is below the limit; `None` when every height of the
    /// range is requested or the limit is reached.
    pub fn next_request(&self, from: u64, to: u64) -> (r: Option<u64>)
        requires
            self.wf(),
        ensures
            r matches Some(h) ==> {
                &&& from <= h <= to
                &&& !self.requested(h)
                &&& forall|y: u64| from <= y < h ==> self.requested(y)
                &&& self.pending_spec().len() < self.config_spec().max_sync_requests
            },
            r is None <==> (forall|y: u64| from <= y <= to ==> self.requested(y))
                || self.pending_spec().len() >= self.config_spec().max_sync_requests,
    {
        if from > to {
            return None;
        }
        let mut h: u64 = from;
        loop
            invariant
                from <= h <= to,
                self.wf(),
                forall|y: u64| from <= y < h ==> self.requested(y),
            decreases to - h,
        {
            if !self.is_completed(h) && !self.is_pending(h) {
                if self.pending.len() >= self.config.max_sync_requests {
                    return None;
                }
                proof {
                    if forall|y: u64| from <= y <= to ==> self.requested(y) {
                        assert(self.requested(h));
                    }
                }
                return Some(h);
            }
            if h == to {
                return None;
            }
            h = h + 1;
        }
    }

    /// Records a request for `height` sent to `peer` at `now_ms`, the first attempt; it
    /// replaces any request for that height.
    pub fn record_request(&mut self, height: u64, peer: Pubkey, addr: NetAddr, now_ms: u64)
        requires
            old(self).wf(),
        ensures
            final(self).wf(),
            final(self).pending_spec() == without_height(old(self).pending_spec(), height).push(
                PendingSyncRequest { height, peer, addr, sent_at_ms: now_ms, attempts: 1 },
            ),
            final(self).completed_spec() == old(self).completed_spec(),
            final(self).config_spec() == old(self).config_spec(),
            final(self).max_retries_spec() == old(self).max_retries_spec(),
    {
        self.put(PendingSyncRequest { height, peer, addr, sent_at_ms: now_ms, attempts: 1 });
    }

    fn put(&mut self, req: PendingSyncRequest)
        requires
            old(self).wf(),
        ensures
            final(self).wf(),
            final(self).pending@ == without_height(old(self).pending@, req.height).push(req),
            final(self).completed == old(self).completed,
            final(self).config == old(self).config,
            final(self).max_retries == old(self).max_retries,
    {
        let ghost s = self.pending@;
        match self.find(req.height) {
            Some(i) => {
                self.pending.remove(i);
                proof {
                    lemma_request_index_found(s, req.height);
                    lemma_remove_is_without(s, i as int);
                }
            },
            None => {
                proof {
                    lemma_request_index_absent_all(s, req.height);
                    lemma_without_absent(s, req.height);
                }
            },
        }
        let ghost t = self.pending@;
        self.pending.push(req);
        proof {
            lemma_without_distinct(s, req.height);
            let u = self.pending@;
            assert forall|a: int, b: int| 0 <= a < b < u.len() implies u[a].height != u[b].height by {
                if b == u.len() - 1 {
                    assert(t[a].height != req.height) by {
                        lemma_without_excludes(s, req.height, a);
                    }
                } else {
                    assert(u[a] == t[a] && u[b] == t[b]);
                }
            }
        }
    }

    /// Handles the block received for `height`: if a request for it is in flight, the request
    /// is done, the height completed and the block handed on; an unsolicited block is dropped.
    pub fn handle_response(&mut self, height: u64, block: BlockData) -> (r: Option<BlockData>)
        requires
            old(self).wf(),
        ensures
            final(self).wf(),
            final(self).config_spec() == old(self).config_spec(),
            final(self).max_retries_spec() == old(self).max_retries_spec(),
            request_index(old(self).pending_spec(), height) >= 0 ==> {
                &&& r == Some(block)
                &&& final(self).pending_spec() == old(self).pending_spec().remove(request_index(old(self).pending_spec(), height))
                &&& final(self).completed_spec() == old(self).completed_spec().insert(height)
            },
            request_index(old(self).pending_spec(), height) < 0 ==> {
                &&& r is None
                &&& final(self).pending_spec() == old(self).pending_spec()
                &&& final(self).completed_spec() == old(self).completed_spec()
            },
    {
        match self.find(height) {
            Some(i) => {
                let ghost s = self.pending@;
                self.pending.remove(i);
                proof {
                    let t = self.pending@;
                    assert forall|a: int, b: int| 0 <= a < b < t.len() implies t[a].height != t[b].height by {
                        let oa = if a < i { a } else { a + 1 };
                        let ob = if b < i { b } else { b + 1 };
                        assert(t[a] == s[oa] && t[b] == s[ob]);
                    }
                }
                if !self.is_completed(height) {
                    let ghost c = self.completed@;
                    self.completed.push(height);
                    proof {
                        c.lemma_push_to_set_commute(height);
                        let u = self.completed@;
                        assert forall|a: int, b: int| 0 <= a < u.len() && 0 <= b < u.len() && a != b implies u[a] != u[b] by {
                            if a == c.len() {
                                assert(c.contains(u[b]));
                            } else if b == c.len() {
                                assert(c.contains(u[a]));
                            }
                        }
                    }
                } else {
                    proof {
                        assert(self.completed@.to_set().insert(height) =~= self.completed@.to_set());
                    }
                }
                Some(block)
            },
            None => None,
        }
    }

    /// Takes the requests that waited longer than the message timeout as of `now_ms` out of
    /// flight: those with attempts left are returned for a retry, the heights of the others as
    /// given up.
    pub fn take_timed_out(&mut self, now_ms: u64) -> (r: (Vec<PendingSyncRequest>, Vec<u64>))
        requires
            old(self).wf(),
        ensures
            final(self).wf(),
            final(self).completed_spec() == old(self).completed_spec(),
            final(self).config_spec() == old(self).config_spec(),
            final(self).max_retries_spec() == old(self).max_retries_spec(),
            ({
                let s = old(self).pending_spec();
                let t = old(self).config_spec().message_timeout_ms;
                let m = old(self).max_retries_spec();
                &&& final(self).pending_spec() == s.filter(|q: PendingSyncRequest| !timed_out(q, now_ms, t))
                &&& r.0@ == s.filter(|q: PendingSyncRequest| timed_out(q, now_ms, t) && q.attempts < m)
                &&& r.1@ == s.filter(|q: PendingSyncRequest| timed_out(q, now_ms, t) && q.attempts >= m).map_values(
                    |q: PendingSyncRequest| q.height,
                )
            }),
    {
        let timeout = self.config.message_timeout_ms;
        let max_retries = self.max_retries;
        let ghost s = self.pending@;
        let ghost keep = |q: PendingSyncRequest| !timed_out(q, now_ms, timeout);
        let ghost retry = |q: PendingSyncRequest| timed_out(q, now_ms, timeout) && q.attempts < max_retries;
        let ghost fail = |q: PendingSyncRequest| timed_out(q, now_ms, timeout) && q.attempts >= max_retries;
        let mut kept: Vec<PendingSyncRequest> = Vec::new();
        let mut to_retry: Vec<PendingSyncRequest> = Vec::new();
        let mut failed: Vec<u64> = Vec::new();
        let mut i: usize = 0;
        while i < self.pending.len()
            invariant
                0 <= i <= s.len(),
                self.pending@ == s,
                keep == (|q: PendingSyncRequest| !timed_out(q, now_ms, timeout)),
                retry == (|q: PendingSyncRequest| timed_out(q, now_ms, timeout) && q.attempts < max_retries),
                fail == (|q: PendingSyncRequest| timed_out(q, now_ms, timeout) && q.attempts >= max_retries),
                kept@ == s.take(i as int).filter(keep),
                to_retry@ == s.take(i as int).filter(retry),
                failed@ == s.take(i as int).filter(fail).map_values(|q: PendingSyncRequest| q.height),
            decreases s.len() - i,
        {
            let q = self.pending[i];
            proof {
                assert(s.take(i + 1) =~= s.take(i as int).push(q));
                s.take(i as int).lemma_filter_push(q, keep);
                s.take(i as int).lemma_filter_push(q, retry);
                s.take(i as int).lemma_filter_push(q, fail);
            }
            if now_ms.saturating_sub(q.sent_at_ms) > timeout {
                if q.attempts >= max_retries {
                    failed.push(q.height);
                    proof {
                        assert(failed@ =~= s.take(i + 1).filter(fail).map_values(|q: PendingSyncRequest| q.height));
                    }
                } else {
                    to_retry.push(q);
                }
            } else {
                kept.push(q);
            }
            i = i + 1;
        }
        proof {
            assert(s.take(s.len() as int) =~= s);
            lemma_filter_distinct(s, keep);
        }
        self.pending = kept;
        (to_retry, failed)
    }

    /// Records a retry of a timed-out request, sent to `peer` at `now_ms`: one more attempt.
    pub fn record_retry(&mut self, req: PendingSyncRequest, peer: Pubkey, addr: NetAddr, now_ms: u64)
        requires
            old(self).wf(),
        ensures
            final(self).wf(),
            final(self).pending_spec() == without_height(old(self).pending_spec(), req.height).push(
                PendingSyncRequest {
                    height: req.height,
                    peer,
                    addr,
                    sent_at_ms: now_ms,
                    attempts: if req.attempts == u32::MAX { u32::MAX } else { (req.attempts + 1) as u32 },
                },
            ),
            final(self).completed_spec() == old(self).completed_spec(),
            final(self).config_spec() == old(self).config_spec(),
            final(self).max_retries_spec() == old(self).max_retries_spec(),
    {
        let attempts = req.attempts.saturating_add(1);
        self.put(PendingSyncRequest { height: req.height, peer, addr, sent_at_ms: now_ms, attempts });
    }

    /// Forgets all requests and completions, for a new session.
    pub fn reset(&mut self)
        ensures
            final(self).wf(),
            final(self).pending_spec() == Seq::<PendingSyncRequest>::empty(),
            final(self).completed_spec() == Set::<u64>::empty(),
            final(self).config_spec() == old(self).config_spec(),
            final(self).max_retries_spec() == old(self).max_retries_spec(),
    {
        self.pending = Vec::new();
        self.completed = Vec::new();
        proof {
            assert(self.completed@.to_set() =~= Set::<u64>::empty());
        }
    }
}

/// The peers a sync request may go to: the connected active validators, or, if there are none,
/// every connected peer.
pub open spec fn sync_candidates(pm: PeerManager) -> Seq<PeerConnection> {
    let validators = pm.peers@.filter(|p: PeerConnection| is_connected_validator(p, pm.active_validators@));
    if validators.len() > 0 {
        validators
    } else {
        pm.peers@.filter(|p: PeerConnection| p.is_connected)
    }
}

/// Picks the peer to send a sync request to: candidate number `seed` modulo the number of
/// candidates. The caller supplies `seed` from any source of spread.
pub fn pick_peer(pm: &PeerManager, seed: u64) -> (r: Result<(Pubkey, NetAddr), ConsensusNetError>)
    ensures
        sync_candidates(*pm).len() == 0 ==> (r matches Err(ConsensusNetError::InvalidMessage(m)) && m@
            == "no connected peers for sync"@),
        sync_candidates(*pm).len() > 0 ==> ({
            let c = sync_candidates(*pm)[(seed as int) % (sync_candidates(*pm).len() as int)];
            r == Ok::<(Pubkey, NetAddr), ConsensusNetError>((c.info.pubkey, c.info.addr))
        }),
{
    let validators = pm.connected_validators();
    let candidates = if validators.len() > 0 {
        validators
    } else {
        pm.connected_peers()
    };
    if candidates.len() == 0 {
        return Err(ConsensusNetError::InvalidMessage(String::from_str("no connected peers for sync")));
    }
    let idx = (seed % (candidates.len() as u64)) as usize;
    let c = candidates[idx];
    Ok((c.info.pubkey, c.info.addr))
}

/// A block is taken once per request: once the response for a height in flight is handled
/// (its request removed, as [`BlockSyncer::handle_response`] does), the height is no longer in
/// flight, so a second response for it is dropped.
pub proof fn law_response_taken_once(before: BlockSyncer, after: BlockSyncer, height: u64)
    requires
        before.wf(),
        request_index(before.pending_spec(), height) >= 0,
        after.pending_spec() == before.pending_spec().remove(request_index(before.pending_spec(), height)),
    ensures
        request_index(after.pending_spec(), height) < 0,
{
    let s = before.pending_spec();
    lemma_request_index_found(s, height);
    let i = request_index(s, height);
    lemma_remove_is_without(s, i);
    let t = s.remove(i);
    assert forall|j: int| 0 <= j < t.len() implies t[j].height != height by {
        lemma_without_excludes(s, height, j);
    }
    lemma_request_index_absent(t, height);
}

/// Requests go out only below the concurrency limit: recording a request when fewer than
/// `max_sync_requests` are in flight (as [`BlockSyncer::next_request`] ensures before it picks
/// a height) keeps the requests in flight within the limit.
pub proof fn law_requests_within_limit(
    before: BlockSyncer,
    after: BlockSyncer,
    height: u64,
    peer: Pubkey,
    addr: NetAddr,
    now_ms: u64,
)
    requires
        before.pending_spec().len() < before.config_spec().max_sync_requests,
        after.pending_spec() == without_height(before.pending_spec(), height).push(
            PendingSyncRequest { height, peer, addr, sent_at_ms: now_ms, attempts: 1 },
        ),
    ensures
        after.pending_spec().len() <= before.config_spec().max_sync_requests,
{
    before.pending_spec().lemma_filter_len(|r: PendingSyncRequest| r.height != height);
}

proof fn lemma_request_index(s: Seq<PendingSyncRequest>, h: u64, i: int)
    requires
        heights_distinct(s),
        0 <= i < s.len(),
        s[i].height == h,
    ensures
        request_index(s, h) == i,
    decreases s.len(),
{
    if i < s.len() - 1 {
        assert(s.last().height != h);
        lemma_request_index(s.drop_last(), h, i);
    }
}

proof fn lemma_request_index_absent(s: Seq<PendingSyncRequest>, h: u64)
    requires
        forall|j: int| 0 <= j < s.len() ==> s[j].height != h,
    ensures
        request_index(s, h) == -1,
    decreases s.len(),
{
    if s.len() > 0 {
        lemma_request_index_absent(s.drop_last(), h);
    }
}

proof fn lemma_request_index_absent_all(s: Seq<PendingSyncRequest>, h: u64)
    requires
        request_index(s, h) == -1,
    ensures
        forall|j: int| 0 <= j < s.len() ==> s[j].height != h,
    decreases s.len(),
{
    if s.len() > 0 {
        lemma_request_index_absent_all(s.drop_last(), h);
        assert forall|j: int| 0 <= j < s.len() implies s[j].height != h by {
            if j < s.len() - 1 {
                assert(s.drop_last()[j] == s[j]);
            }
        }
    }
}

proof fn lemma_request_index_found(s: Seq<PendingSyncRequest>, h: u64)
    ensures
        -1 <= request_index(s, h) < s.len(),
        request_index(s, h) >= 0 ==> s[request_index(s, h)].height == h,
    decreases s.len(),
{
    if s.len() > 0 {
        lemma_request_index_found(s.drop_last(), h);
    }
}

proof fn lemma_without_absent(s: Seq<PendingSyncRequest>, h: u64)
    requires
        forall|j: int| 0 <= j < s.len() ==> s[j].height != h,
    ensures
        without_height(s, h) == s,
    decreases s.len(),
{
    reveal(Seq::filter);
    if s.len() > 0 {
        lemma_without_absent(s.drop_last(), h);
        assert(s.drop_last().push(s.last()) =~= s);
    } else {
        assert(s.filter(|r: PendingSyncRequest| r.height != h) =~= s);
    }
}

proof fn lemma_remove_is_without(s: Seq<PendingSyncRequest>, i: int)
    requires
        heights_distinct(s),
        0 <= i < s.len(),
    ensures
        s.remove(i) == without_height(s, s[i].height),
    decreases s.len(),
{
    reveal(Seq::filter);
    let h = s[i].height;
    if i == s.len() - 1 {
        assert(s.remove(i) =~= s.drop_last());
        assert forall|j: int| 0 <= j < s.drop_last().len() implies s.drop_last()[j].height != h by {
            assert(s[j].height != s[i].height);
        }
        lemma_without_absent(s.drop_last(), h);
    } else {
        let d = s.drop_last();
        assert(heights_distinct(d)) by {
            assert forall|a: int, b: int| 0 <= a < b < d.len() implies d[a].height != d[b].height by {
                assert(d[a] == s[a] && d[b] == s[b]);
            }
        }
        assert(d[i] == s[i]);
        lemma_remove_is_without(d, i);
        assert(s.last().height != h);
        assert(s.remove(i) =~= d.remove(i).push(s.last()));
    }
}

proof fn lemma_without_excludes(s: Seq<PendingSyncRequest>, h: u64, a: int)
    requires
        0 <= a < without_height(s, h).len(),
    ensures
        without_height(s, h)[a].height != h,
{
    let p = |r: PendingSyncRequest| r.height != h;
    s.lemma_filter_pred(p, a);
}

proof fn lemma_without_distinct(s: Seq<PendingSyncRequest>, h: u64)
    requires
        heights_distinct(s),
    ensures
        heights_distinct(without_height(s, h)),
{
    lemma_filter_distinct(s, |r: PendingSyncRequest| r.height != h);
}

proof fn lemma_filter_distinct(s: Seq<PendingSyncRequest>, p: spec_fn(PendingSyncRequest) -> bool)
    requires
        heights_distinct(s),
    ensures
        heights_distinct(s.filter(p)),
    decreases s.len(),
{
    reveal(Seq::filter);
    if s.len() > 0 {
        let d = s.drop_last();
        assert(heights_distinct(d)) by {
            assert forall|a: int, b: int| 0 <= a < b < d.len() implies d[a].height != d[b].height by {
                assert(d[a] == s[a] && d[b] == s[b]);
            }
        }
        lemma_filter_distinct(d, p);
        if p(s.last()) {
            let f = d.filter(p);
            let g = f.push(s.last());
            assert forall|a: int, b: int| 0 <= a < b < g.len() implies g[a].height != g[b].height by {
                if b == g.len() - 1 {
                    assert(f.contains(f[a]));
                    d.lemma_filter_contains_rev(p, f[a]);
                    let k = choose|k: int| 0 <= k < d.len() && d[k] == f[a];
                    assert(s[k] == d[k]);
                    assert(s[k].height != s[s.len() - 1].height);
                }
            }
        }
    }
}

} // verus!

//! The hot-tier account cache: accounts kept in recency order, promoted on access and
//! evicted to warm storage when the cache passes its watermark.

use vstd::prelude::*;
use crate::arith::{sat_add, sat_add_spec, sat_sub_spec};
use crate::primitives::Pubkey;
use crate::accounts::account::AccountData;
use crate::accounts::tiered::{EvictionPolicy, TierStats, TieredStorageConfig, watermark_spec, zero_stats};

verus! {

/// Bytes of bookkeeping counted for each cached account besides its data.
pub const ENTRY_OVERHEAD: u64 = 160;

/// A cached account with its access count.
#[derive(Debug)]
pub struct CachedAccount {
    /// The account's key.
    pub pubkey: Pubkey,
    /// The account.
    pub data: AccountData,
    /// Accesses so far, the insertion included (saturating).
    pub access_count: u64,
    /// The length of the account data.
    pub data_len: u64,
}

/// The bytes an entry counts against the cache: its data plus a fixed overhead.
pub open spec fn memory_size_spec(e: CachedAccount) -> u64 {
    sat_add_spec(ENTRY_OVERHEAD as int, e.data_len as int) as u64
}

/// The entry that caching `account` under `pubkey` creates: one access so far.
pub open spec fn fresh_entry(pubkey: Pubkey, account: AccountData) -> CachedAccount {
    CachedAccount { pubkey, data: account, access_count: 1, data_len: account.data@.len() as u64 }
}

impl CachedAccount {
    /// A fresh entry for `data`: one access so far.
    pub fn new(pubkey: Pubkey, data: AccountData) -> (r: Self)
        ensures
            r == fresh_entry(pubkey, data),
            r.data_len == data.data@.len(),
    {
        let data_len = data.data.len() as u64;
        CachedAccount { pubkey, data, access_count: 1, data_len }
    }

    /// The bytes the entry counts against the cache.
    pub fn memory_size(&self) -> (r: u64)
        ensures
            r == memory_size_spec(*self),
    {
        sat_add(ENTRY_OVERHEAD, self.data_len)
    }
}

/// The position of `k` in `s`, or -1 when no entry has that key.
pub open spec fn key_index(s: Seq<CachedAccount>, k: Pubkey) -> int
    decreases s.len(),
{
    if s.len() == 0 {
        -1
    } else if s.last().pubkey == k {
        s.len() - 1
    } else {
        key_index(s.drop_last(), k)
    }
}

/// No key occurs twice.
pub open spec fn cache_keys_distinct(s: Seq<CachedAccount>) -> bool {
    forall|i: int, j: int| 0 <= i < j < s.len() ==> s[i].pubkey != s[j].pubkey
}

/// Every entry records the length of its data.
pub open spec fn lengths_recorded(s: Seq<CachedAccount>) -> bool {
    forall|i: int| 0 <= i < s.len() ==> #[trigger] s[i].data_len == s[i].data.data@.len()
}

/// `e` after one more access.
pub open spec fn touched(e: CachedAccount) -> CachedAccount {
    CachedAccount { access_count: sat_add_spec(e.access_count as int, 1) as u64, ..e }
}

/// The entries after caching `account` under `pubkey`: any entry of that key leaves its place
/// and the fresh entry becomes the most recent.
pub open spec fn insert_entries(s: Seq<CachedAccount>, pubkey: Pubkey, account: AccountData) -> Seq<CachedAccount> {
    let i = key_index(s, pubkey);
    if i >= 0 {
        s.remove(i).push(fresh_entry(pubkey, account))
    } else {
        s.push(fresh_entry(pubkey, account))
    }
}

/// How many of the oldest entries LFU eviction scans: a quarter, at least one.
pub open spec fn scan_limit(len: nat) -> int {
    if len / 4 >= 1 { (len / 4) as int } else { 1 }
}

/// Whether `v` is the entry LFU eviction picks: among the scanned oldest entries, the oldest of
/// those with the fewest accesses; an entry whose count has saturated is never picked.
pub open spec fn is_lfu_victim(s: Seq<CachedAccount>, v: int) -> bool {
    &&& 0 <= v < scan_limit(s.len())
    &&& v < s.len()
    &&& s[v].access_count < u64::MAX
    &&& forall|j: int| 0 <= j < v ==> s[j].access_count > s[v].access_count
    &&& forall|j: int| v < j < scan_limit(s.len()) && j < s.len() ==> s[j].access_count >= s[v].access_count
}

/// The entry eviction removes next, or -1 when it stops: the oldest entry under LRU (and ARC),
/// the LFU victim under LFU.
pub open spec fn victim(s: Seq<CachedAccount>, lfu: bool) -> int {
    if !lfu {
        if s.len() > 0 { 0 } else { -1 }
    } else if exists|v: int| is_lfu_victim(s, v) {
        choose|v: int| is_lfu_victim(s, v)
    } else {
        -1
    }
}

/// Eviction from entries `s` of total size `size`: while the size is above the watermark, the
/// budget lasts and a victim exists, remove the victim and subtract its size. Gives the entries
/// left, the entries evicted in order, and the size left.
pub open spec fn evict_spec(s: Seq<CachedAccount>, size: u64, watermark: u64, budget: nat, lfu: bool) -> (
    Seq<CachedAccount>,
    Seq<CachedAccount>,
    u64,
)
    decreases budget,
{
    if size > watermark && budget > 0 && victim(s, lfu) >= 0 {
        let v = victim(s, lfu);
        let next_size = sat_sub_spec(size as int, memory_size_spec(s[v]) as int) as u64;
        let rest = evict_spec(s.remove(v), next_size, watermark, (budget - 1) as nat, lfu);
        (rest.0, seq![s[v]] + rest.1, rest.2)
    } else {
        (s, Seq::empty(), size)
    }
}

/// The hot-tier cache of accounts, oldest first.
#[derive(Debug)]
pub struct AccountCache {
    config: TieredStorageConfig,
    entries: Vec<CachedAccount>,
    current_size_bytes: u64,
    stats: TierStats,
}

impl AccountCache {
    /// The cached entries, least recently used first.
    pub closed spec fn view(&self) -> Seq<CachedAccount> {
        self.entries@
    }

    /// The size counted against the cache.
    pub closed spec fn size(&self) -> u64 {
        self.current_size_bytes
    }

    /// The statistics.
    pub closed spec fn stats_spec(&self) -> TierStats {
        self.stats
    }

    /// The configuration.
    pub closed spec fn config_spec(&self) -> TieredStorageConfig {
        self.config
    }

    /// The cache's invariant: no key twice, each entry's recorded length right.
    pub closed spec fn wf(&self) -> bool {
        &&& cache_keys_distinct(self.entries@)
        &&& lengths_recorded(self.entries@)
    }

    /// An empty cache with `config`.
    pub fn new(config: TieredStorageConfig) -> (r: Self)
        ensures
            r.wf(),
            r@ == Seq::<CachedAccount>::empty(),
            r.size() == 0,
            r.stats_spec() == zero_stats(),
            r.config_spec() == config,
    {
        AccountCache { config, entries: Vec::new(), current_size_bytes: 0, stats: TierStats::default() }
    }

    fn find(&self, pubkey: &Pubkey) -> (r: Option<usize>)
        requires
            self.wf(),
        ensures
            r matches Some(i) ==> i as int == key_index(self@, *pubkey) && i < self@.len(),
            r is None ==> key_index(self@, *pubkey) == -1,
    {
        let mut i: usize = 0;
        while i < self.entries.len()
            invariant
                0 <= i <= self.entries@.len(),
                cache_keys_distinct(self.entries@),
                forall|j: int| 0 <= j < i ==> self.entries@[j].pubkey != *pubkey,
            decreases self.entries@.len() - i,
        {
            if self.entries[i].pubkey == *pubkey {
                proof {
                    lemma_key_index(self.entries@, *pubkey, i as int);
                }
                return Some(i);
            }
            i = i + 1;
        }
        proof {
            lemma_key_index_absent(self.entries@, *pubkey);
        }
        None
    }

    /// Looks an account up; a hit promotes it to most recent and counts an access.
    pub fn get(&mut self, pubkey: &Pubkey) -> (r: Option<&AccountData>)
        requires
            old(self).wf(),
        ensures
            final(self).wf(),
            final(self).size() == old(self).size(),
            final(self).config_spec() == old(self).config_spec(),
            ({
                let s = old(self)@;
                let i = key_index(s, *pubkey);
                if i >= 0 {
                    &&& r matches Some(a) && *a == s[i].data
                    &&& final(self)@ == s.remove(i).push(touched(s[i]))
                    &&& final(self).stats_spec() == (TierStats {
                        total_hits: sat_add_spec(old(self).stats_spec().total_hits as int, 1) as u64,
                        ..old(self).stats_spec()
                    })
                } else {
                    &&& r is None
                    &&& final(self)@ == s
                    &&& final(self).stats_spec() == (TierStats {
                        total_misses: sat_add_spec(old(self).stats_spec().total_misses as int, 1) as u64,
                        ..old(self).stats_spec()
                    })
                }
            }),
    {
        match self.find(pubkey) {
            Some(i) => {
                self.stats.total_hits = sat_add(self.stats.total_hits, 1);
                let ghost s = self.entries@;
                let mut e = self.entries.remove(i);
                e.access_count = sat_add(e.access_count, 1);
                self.entries.push(e);
                proof {
                    lemma_promote_keeps_wf(s, i as int, self.entries@);
                }
                let last = self.entries.len() - 1;
                Some(&self.entries[last].data)
            },
            None => {
                self.stats.total_misses = sat_add(self.stats.total_misses, 1);
                None
            },
        }
    }

    /// Whether `pubkey` is cached; the order is left as it is.
    pub fn contains(&self, pubkey: &Pubkey) -> (r: bool)
        requires
            self.wf(),
        ensures
            r == (key_index(self@, *pubkey) >= 0),
    {
        self.find(pubkey).is_some()
    }

    /// Caches `account` under `pubkey` as the most recent entry, replacing any entry of that
    /// key. Does not evict.
    pub fn insert(&mut self, pubkey: Pubkey, account: AccountData)
        requires
            old(self).wf(),
        ensures
            final(self).wf(),
            final(self)@ == insert_entries(old(self)@, pubkey, account),
            final(self).size() == ({
                let s = old(self)@;
                let i = key_index(s, pubkey);
                let add = memory_size_spec(fresh_entry(pubkey, account)) as int;
                if i >= 0 {
                    sat_add_spec(sat_sub_spec(old(self).size() as int, memory_size_spec(s[i]) as int), add)
                } else {
                    sat_add_spec(old(self).size() as int, add)
                }
            }),
            final(self).stats_spec() == (TierStats {
                hot_accounts: final(self)@.len() as u64,
                hot_size_bytes: final(self).size(),
                ..old(self).stats_spec()
            }),
            final(self).config_spec() == old(self).config_spec(),
    {
        let ghost s = self.entries@;
        let cached = CachedAccount::new(pubkey, account);
        let entry_size = cached.memory_size();
        match self.find(&pubkey) {
            Some(i) => {
                let old_entry = self.entries.remove(i);
                let old_size = old_entry.memory_size();
                self.current_size_bytes = sat_add(self.current_size_bytes.saturating_sub(old_size), entry_size);
                self.entries.push(cached);
                proof {
                    lemma_key_index_found(s, pubkey);
                    assert(self.entries@.drop_last() =~= s.remove(i as int));
                    lemma_replace_keeps_wf(s, i as int, self.entries@);
                }
            },
            None => {
                self.entries.push(cached);
                self.current_size_bytes = sat_add(self.current_size_bytes, entry_size);
                proof {
                    lemma_key_index_absent_all(s, pubkey);
                    assert(self.entries@.drop_last() =~= s);
                    lemma_push_keeps_wf(s, self.entries@);
                }
            },
        }
        self.stats.hot_accounts = self.entries.len() as u64;
        self.stats.hot_size_bytes = self.current_size_bytes;
    }

    /// Removes the entry of `pubkey`, giving its account back; `None` if it is not cached.
    pub fn remove(&mut self, pubkey: &Pubkey) -> (r: Option<AccountData>)
        requires
            old(self).wf(),
        ensures
            final(self).wf(),
            final(self).config_spec() == old(self).config_spec(),
            ({
                let s = old(self)@;
                let i = key_index(s, *pubkey);
                if i >= 0 {
                    &&& r == Some(s[i].data)
                    &&& final(self)@ == s.remove(i)
                    &&& final(self).size() == sat_sub_spec(old(self).size() as int, memory_size_spec(s[i]) as int)
                    &&& final(self).stats_spec() == (TierStats {
                        hot_accounts: final(self)@.len() as u64,
                        hot_size_bytes: final(self).size(),
                        ..old(self).stats_spec()
                    })
                } else {
                    &&& r is None
                    &&& final(self)@ == s
                    &&& final(self).size() == old(self).size()
                    &&& final(self).stats_spec() == old(self).stats_spec()
                }
            }),
    {
        match self.find(pubkey) {
            Some(i) => {
                let ghost s = self.entries@;
                let e = self.entries.remove(i);
                let size = e.memory_size();
                self.current_size_bytes = self.current_size_bytes.saturating_sub(size);
                proof {
                    lemma_remove_keeps_wf(s, i as int);
                }
                self.stats.hot_accounts = self.entries.len() as u64;
                self.stats.hot_size_bytes = self.current_size_bytes;
                Some(e.data)
            },
            None => None,
        }
    }

    /// Whether the cache is above its eviction watermark.
    pub fn needs_eviction(&self) -> (r: bool)
        ensures
            r == (self.size() > watermark_spec(self.config_spec().hot_cache_size, self.config_spec().target_utilization_ppm)),
    {
        self.current_size_bytes > self.config.eviction_watermark()
    }

    /// The entry to evict next, or `None` when eviction stops.
    fn pick_victim(&self, lfu: bool) -> (r: Option<usize>)
        ensures
            r matches Some(v) ==> v as int == victim(self@, lfu),
            r is None ==> victim(self@, lfu) == -1,
    {
        let len = self.entries.len();
        if !lfu {
            return if len > 0 { Some(0) } else { None };
        }
        let limit: usize = if len / 4 >= 1 { len / 4 } else { 1 };
        let mut min_count: u64 = u64::MAX;
        let mut min_idx: Option<usize> = None;
        let mut j: usize = 0;
        while j < limit && j < len
            invariant
                0 <= j <= limit,
                limit == scan_limit(self@.len()),
                len == self@.len(),
                min_idx is None ==> min_count == u64::MAX && forall|i: int| 0 <= i < j ==> self@[i].access_count == u64::MAX,
                min_idx matches Some(m) ==> {
                    &&& m < j
                    &&& m < len
                    &&& min_count == self@[m as int].access_count
                    &&& min_count < u64::MAX
                    &&& forall|i: int| 0 <= i < m ==> self@[i].access_count > min_count
                    &&& forall|i: int| m < i < j ==> self@[i].access_count >= min_count
                },
            decreases limit - j,
        {
            let c = self.entries[j].access_count;
            if c < min_count {
                min_count = c;
                min_idx = Some(j);
            }
            j = j + 1;
        }
        proof {
            match min_idx {
                Some(m) => {
                    assert(is_lfu_victim(self@, m as int));
                    lemma_lfu_victim_unique(self@, m as int);
                },
                None => {
                    assert forall|v: int| !is_lfu_victim(self@, v) by {
                        if is_lfu_victim(self@, v) {
                            assert(self@[v].access_count == u64::MAX);
                        }
                    }
                },
            }
        }
        min_idx
    }

    /// Evicts entries to warm storage: the least recently used first (least frequently used
    /// among the oldest quarter under LFU), until the cache is at or below its watermark, a
    /// batch is done or no entry remains to pick. Returns the evicted keys and accounts for the
    /// caller to persist.
    pub fn evict_to_warm(&mut self) -> (r: Vec<(Pubkey, AccountData)>)
        requires
            old(self).wf(),
        ensures
            final(self).wf(),
            final(self).config_spec() == old(self).config_spec(),
            ({
                let c = old(self).config_spec();
                let out = evict_spec(
                    old(self)@,
                    old(self).size(),
                    watermark_spec(c.hot_cache_size, c.target_utilization_ppm) as u64,
                    c.eviction_batch_size as nat,
                    c.eviction_policy is LFU,
                );
                &&& final(self)@ == out.0
                &&& r@ == out.1.map_values(|e: CachedAccount| (e.pubkey, e.data))
                &&& final(self).size() == out.2
                &&& final(self).stats_spec() == (TierStats {
                    hot_to_warm_demotions: sat_add_spec(old(self).stats_spec().hot_to_warm_demotions as int, out.1.len() as int) as u64,
                    hot_accounts: out.0.len() as u64,
                    hot_size_bytes: out.2,
                    ..old(self).stats_spec()
                })
            }),
    {
        let watermark = self.config.eviction_watermark();
        let lfu = match self.config.eviction_policy {
            EvictionPolicy::LFU => true,
            EvictionPolicy::LRU => false,
            EvictionPolicy::ARC => false,
        };
        let batch = self.config.eviction_batch_size;
        let ghost s0 = self.entries@;
        let ghost z0 = self.current_size_bytes;
        let ghost out = evict_spec(s0, z0, watermark, batch as nat, lfu);
        let mut evicted: Vec<(Pubkey, AccountData)> = Vec::new();
        let ghost mut taken: Seq<CachedAccount> = Seq::empty();
        let mut count: usize = 0;
        let mut stop = false;
        while !stop && self.current_size_bytes > watermark && count < batch
            invariant
                count <= batch,
                self.wf(),
                self.config == old(self).config,
                self.stats == old(self).stats,
                watermark == watermark_spec(self.config.hot_cache_size, self.config.target_utilization_ppm),
                lfu == (self.config.eviction_policy is LFU),
                batch == self.config.eviction_batch_size,
                out == evict_spec(s0, z0, watermark, batch as nat, lfu),
                taken.len() == count,
                evicted@ == taken.map_values(|e: CachedAccount| (e.pubkey, e.data)),
                ({
                    let rest = evict_spec(self.entries@, self.current_size_bytes, watermark, (batch - count) as nat, lfu);
                    &&& out.0 == rest.0
                    &&& out.1 == taken + rest.1
                    &&& out.2 == rest.2
                }),
                stop ==> victim(self.entries@, lfu) == -1,
            decreases batch - count, if stop { 0int } else { 1int },
        {
            match self.pick_victim(lfu) {
                None => {
                    stop = true;
                },
                Some(v) => {
                    let ghost s = self.entries@;
                    let ghost z = self.current_size_bytes;
                    let e = self.entries.remove(v);
                    let size = e.memory_size();
                    self.current_size_bytes = self.current_size_bytes.saturating_sub(size);
                    proof {
                        lemma_remove_keeps_wf(s, v as int);
                        let rest = evict_spec(s, z, watermark, (batch - count) as nat, lfu);
                        let rest2 = evict_spec(self.entries@, self.current_size_bytes, watermark, (batch - count - 1) as nat, lfu);
                        assert(rest.0 == rest2.0);
                        assert(rest.1 == seq![s[v as int]] + rest2.1);
                        assert(taken + rest.1 == taken.push(s[v as int]) + rest2.1);
                    }
                    evicted.push((e.pubkey, e.data));
                    proof {
                        let old_taken = taken;
                        taken = taken.push(e);
                        assert(evicted@ =~= taken.map_values(|e: CachedAccount| (e.pubkey, e.data)));
                    }
                    count = count + 1;
                },
            }
        }
        proof {
            let rest = evict_spec(self.entries@, self.current_size_bytes, watermark, (batch - count) as nat, lfu);
            assert(rest.1 =~= Seq::<CachedAccount>::empty());
            assert(taken + rest.1 =~= taken);
        }
        self.stats.hot_to_warm_demotions = sat_add(self.stats.hot_to_warm_demotions, evicted.len() as u64);
        self.stats.hot_accounts = self.entries.len() as u64;
        self.stats.hot_size_bytes = self.current_size_bytes;
        evicted
    }

    /// The statistics.
    pub fn stats(&self) -> (r: &TierStats)
        ensures
            *r == self.stats_spec(),
    {
        &self.stats
    }

    /// The number of cached accounts.
    pub fn len(&self) -> (r: usize)
        ensures
            r == self@.len(),
    {
        self.entries.len()
    }

    /// Whether no account is cached.
    pub fn is_empty(&self) -> (r: bool)
        ensures
            r == (self@.len() == 0),
    {
        self.entries.len() == 0
    }

    /// The size counted against the cache, in bytes.
    pub fn current_size_bytes(&self) -> (r: u64)
        ensures
            r == self.size(),
    {
        self.current_size_bytes
    }

    /// The configured largest size, in bytes.
    pub fn max_size_bytes(&self) -> (r: u64)
        ensures
            r == self.config_spec().hot_cache_size,
    {
        self.config.hot_cache_size
    }

    /// The keys from least to most recently used.
    pub fn keys_by_recency(&self) -> (r: Vec<Pubkey>)
        ensures
            r@ == self@.map_values(|e: CachedAccount| e.pubkey),
    {
        let mut out: Vec<Pubkey> = Vec::new();
        let mut i: usize = 0;
        while i < self.entries.len()
            invariant
                0 <= i <= self.entries@.len(),
                out@ == self.entries@.take(i as int).map_values(|e: CachedAccount| e.pubkey),
            decreases self.entries@.len() - i,
        {
            out.push(self.entries[i].pubkey);
            proof {
                assert(self.entries@.take(i + 1) =~= self.entries@.take(i as int).push(self.entries@[i as int]));
                assert(out@ =~= self.entries@.take(i + 1).map_values(|e: CachedAccount| e.pubkey));
            }
            i = i + 1;
        }
        proof {
            assert(self.entries@.take(self.entries@.len() as int) =~= self.entries@);
        }
        out
    }
}

/// What a read gives back of a write: right after caching `account` under `pubkey`, the key is
/// the most recent entry and holds that account, and every other key is cached exactly when it
/// was before, with the same entry.
pub proof fn law_insert_then_lookup(s: Seq<CachedAccount>, pubkey: Pubkey, account: AccountData, other: Pubkey)
    requires
        cache_keys_distinct(s),
        other != pubkey,
    ensures
        ({
            let t = insert_entries(s, pubkey, account);
            &&& key_index(t, pubkey) == t.len() - 1
            &&& t[t.len() - 1].data == account
            &&& t[t.len() - 1].access_count == 1
            &&& (key_index(t, other) >= 0) == (key_index(s, other) >= 0)
            &&& key_index(s, other) >= 0 ==> t[key_index(t, other)] == s[key_index(s, other)]
        }),
{
    let t = insert_entries(s, pubkey, account);
    lemma_key_index_found(s, pubkey);
    lemma_key_index_found(s, other);
    lemma_key_index_found(t, other);
    let i = key_index(s, pubkey);
    let r = if i >= 0 { s.remove(i) } else { s };
    assert(t.drop_last() =~= r);
    assert(t.last().pubkey == pubkey);
    assert(key_index(t, pubkey) == t.len() - 1);
    assert(key_index(t, other) == key_index(r, other));
    lemma_key_index_found(r, other);
    if i >= 0 {
        lemma_remove_keeps_wf_keys(s, i);
    }
    if key_index(s, other) >= 0 {
        let j = key_index(s, other);
        assert(j != i);
        let rj = if i >= 0 && j > i { j - 1 } else { j };
        assert(r[rj] == s[j]);
        lemma_key_index(r, other, rj);
    } else if key_index(r, other) >= 0 {
        let rj = key_index(r, other);
        let j = if i >= 0 && rj >= i { rj + 1 } else { rj };
        assert(r[rj] == s[j]);
        lemma_key_index_absent_all(s, other);
    }
}

/// Right after caching `account` under `pubkey`, the key is the most recent entry and holds
/// that account.
pub proof fn lemma_insert_lookup(s: Seq<CachedAccount>, pubkey: Pubkey, account: AccountData)
    ensures
        ({
            let t = insert_entries(s, pubkey, account);
            &&& t.len() > 0
            &&& key_index(t, pubkey) == t.len() - 1
            &&& t[t.len() - 1].data == account
        }),
{
    let t = insert_entries(s, pubkey, account);
    assert(t.last().pubkey == pubkey);
}

proof fn lemma_remove_keeps_wf_keys(s: Seq<CachedAccount>, i: int)
    requires
        cache_keys_distinct(s),
        0 <= i < s.len(),
    ensures
        cache_keys_distinct(s.remove(i)),
{
    let t = s.remove(i);
    assert forall|a: int, b: int| 0 <= a < b < t.len() implies t[a].pubkey != t[b].pubkey by {
        let oa = if a < i { a } else { a + 1 };
        let ob = if b < i { b } else { b + 1 };
        assert(t[a] == s[oa]);
        assert(t[b] == s[ob]);
    }
}

/// Eviction under LRU (and ARC) takes the oldest entries: what is evicted, followed by what is
/// left, is the cache as it was.
pub proof fn law_lru_evicts_oldest_first(s: Seq<CachedAccount>, size: u64, watermark: u64, budget: nat)
    ensures
        ({
            let out = evict_spec(s, size, watermark, budget, false);
            out.1 + out.0 == s
        }),
    decreases budget,
{
    let out = evict_spec(s, size, watermark, budget, false);
    if size > watermark && budget > 0 && victim(s, false) >= 0 {
        let next_size = sat_sub_spec(size as int, memory_size_spec(s[0]) as int) as u64;
        law_lru_evicts_oldest_first(s.remove(0), next_size, watermark, (budget - 1) as nat);
        let rest = evict_spec(s.remove(0), next_size, watermark, (budget - 1) as nat, false);
        assert(seq![s[0]] + rest.1 + rest.0 =~= seq![s[0]] + (rest.1 + rest.0));
        assert(seq![s[0]] + s.remove(0) =~= s);
    } else {
        assert(Seq::<CachedAccount>::empty() + s =~= s);
    }
}

/// Eviction stops only when it may: the cache is at or below the watermark, the batch is
/// used up, or no entry is left to pick. It evicts at most a batch, and every entry is either
/// evicted or left.
pub proof fn law_eviction_stops_at_watermark(s: Seq<CachedAccount>, size: u64, watermark: u64, budget: nat, lfu: bool)
    ensures
        ({
            let out = evict_spec(s, size, watermark, budget, lfu);
            &&& out.2 <= watermark || out.1.len() == budget || victim(out.0, lfu) == -1
            &&& out.1.len() <= budget
            &&& out.0.len() + out.1.len() == s.len()
        }),
    decreases budget,
{
    if size > watermark && budget > 0 && victim(s, lfu) >= 0 {
        let v = victim(s, lfu);
        if lfu {
            let w = choose|w: int| is_lfu_victim(s, w);
            assert(is_lfu_victim(s, w));
        }
        let next_size = sat_sub_spec(size as int, memory_size_spec(s[v]) as int) as u64;
        law_eviction_stops_at_watermark(s.remove(v), next_size, watermark, (budget - 1) as nat, lfu);
    }
}

proof fn lemma_key_index(s: Seq<CachedAccount>, k: Pubkey, i: int)
    requires
        cache_keys_distinct(s),
        0 <= i < s.len(),
        s[i].pubkey == k,
    ensures
        key_index(s, k) == i,
    decreases s.len(),
{
    if i < s.len() - 1 {
        assert(s.last().pubkey != k);
        lemma_key_index(s.drop_last(), k, i);
    }
}

proof fn lemma_key_index_absent(s: Seq<CachedAccount>, k: Pubkey)
    requires
        forall|j: int| 0 <= j < s.len() ==> s[j].pubkey != k,
    ensures
        key_index(s, k) == -1,
    decreases s.len(),
{
    if s.len() > 0 {
        lemma_key_index_absent(s.drop_last(), k);
    }
}

proof fn lemma_key_index_absent_all(s: Seq<CachedAccount>, k: Pubkey)
    requires
        key_index(s, k) == -1,
    ensures
        forall|j: int| 0 <= j < s.len() ==> s[j].pubkey != k,
    decreases s.len(),
{
    if s.len() > 0 {
        lemma_key_index_absent_all(s.drop_last(), k);
        assert forall|j: int| 0 <= j < s.len() implies s[j].pubkey != k by {
            if j < s.len() - 1 {
                assert(s.drop_last()[j] == s[j]);
            }
        }
    }
}

/// The position `key_index` gives holds the key.
pub proof fn lemma_key_index_found(s: Seq<CachedAccount>, k: Pubkey)
    ensures
        -1 <= key_index(s, k) < s.len(),
        key_index(s, k) >= 0 ==> s[key_index(s, k)].pubkey == k,
    decreases s.len(),
{
    if s.len() > 0 {
        lemma_key_index_found(s.drop_last(), k);
    }
}

proof fn lemma_remove_keeps_wf(s: Seq<CachedAccount>, i: int)
    requires
        cache_keys_distinct(s),
        lengths_recorded(s),
        0 <= i < s.len(),
    ensures
        cache_keys_distinct(s.remove(i)),
        lengths_recorded(s.remove(i)),
{
    let t = s.remove(i);
    assert forall|a: int, b: int| 0 <= a < b < t.len() implies t[a].pubkey != t[b].pubkey by {
        let oa = if a < i { a } else { a + 1 };
        let ob = if b < i { b } else { b + 1 };
        assert(t[a] == s[oa]);
        assert(t[b] == s[ob]);
    }
    assert forall|a: int| 0 <= a < t.len() implies #[trigger] t[a].data_len == t[a].data.data@.len() by {
        let oa = if a < i { a } else { a + 1 };
        assert(t[a] == s[oa]);
    }
}

proof fn lemma_replace_keeps_wf(s: Seq<CachedAccount>, i: int, t: Seq<CachedAccount>)
    requires
        cache_keys_distinct(s),
        lengths_recorded(s),
        0 <= i < s.len(),
        t.len() == s.len(),
        t.drop_last() == s.remove(i),
        t.last().pubkey == s[i].pubkey,
        t.last().data_len == t.last().data.data@.len(),
    ensures
        cache_keys_distinct(t),
        lengths_recorded(t),
{
    lemma_remove_keeps_wf(s, i);
    let r = s.remove(i);
    assert forall|a: int, b: int| 0 <= a < b < t.len() implies t[a].pubkey != t[b].pubkey by {
        assert(t[a] == r[a]);
        let oa = if a < i { a } else { a + 1 };
        assert(r[a] == s[oa]);
        if b < t.len() - 1 {
            assert(t[b] == r[b]);
        }
    }
    assert forall|a: int| 0 <= a < t.len() implies #[trigger] t[a].data_len == t[a].data.data@.len() by {
        if a < t.len() - 1 {
            assert(t[a] == r[a]);
        }
    }
}

proof fn lemma_promote_keeps_wf(s: Seq<CachedAccount>, i: int, t: Seq<CachedAccount>)
    requires
        cache_keys_distinct(s),
        lengths_recorded(s),
        0 <= i < s.len(),
        t == s.remove(i).push(touched(s[i])),
    ensures
        cache_keys_distinct(t),
        lengths_recorded(t),
{
    assert(t.drop_last() =~= s.remove(i));
    lemma_replace_keeps_wf(s, i, t);
}

proof fn lemma_push_keeps_wf(s: Seq<CachedAccount>, t: Seq<CachedAccount>)
    requires
        cache_keys_distinct(s),
        lengths_recorded(s),
        t.len() == s.len() + 1,
        t.drop_last() == s,
        forall|j: int| 0 <= j < s.len() ==> s[j].pubkey != t.last().pubkey,
        t.last().data_len == t.last().data.data@.len(),
    ensures
        cache_keys_distinct(t),
        lengths_recorded(t),
{
    assert forall|a: int, b: int| 0 <= a < b < t.len() implies t[a].pubkey != t[b].pubkey by {
        assert(t[a] == s[a]);
        if b < t.len() - 1 {
            assert(t[b] == s[b]);
        }
    }
    assert forall|a: int| 0 <= a < t.len() implies #[trigger] t[a].data_len == t[a].data.data@.len() by {
        if a < t.len() - 1 {
            assert(t[a] == s[a]);
        }
    }
}

proof fn lemma_lfu_victim_unique(s: Seq<CachedAccount>, v: int)
    requires
        is_lfu_victim(s, v),
    ensures
        victim(s, true) == v,
{
    let w = choose|w: int| is_lfu_victim(s, w);
    if w < v {
        assert(s[w].access_count > s[v].access_count);
    } else if w > v {
        assert(s[v].access_count > s[w].access_count);
    }
}

} // verus!

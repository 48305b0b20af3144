//! The storage adapter: the hot cache, the archive index and the operation counters that sit
//! in front of the accounts database.
//!
//! Its methods take `&mut self`; a caller that shares the adapter between threads keeps it
//! behind a lock.

use vstd::prelude::*;
use crate::primitives::Pubkey;
use crate::accounts::account::AccountData;
use crate::accounts::archive::{ArchiveIndex, ArchivedAccount, archive_account, is_archive_record};
use crate::accounts::cache::{AccountCache, CachedAccount, key_index, evict_spec};
use crate::accounts::cold_storage::encode_spec;
use crate::accounts::paths::cold_path_spec;
use crate::accounts::rent::{StateRentConfig, check_rent_expiry, rent_expired_spec};
use crate::accounts::tiered::{TierStats, TieredStorageConfig, watermark_spec, zero_stats};

verus! {

/// Default interval between maintenance ticks, in seconds.
pub const DEFAULT_MAINTENANCE_INTERVAL_SECS: u64 = 60;

/// Shortest interval between maintenance ticks, in seconds.
pub const MIN_MAINTENANCE_INTERVAL_SECS: u64 = 5;

/// Milliseconds per slot assumed when estimating slots from elapsed ticks.
pub const ESTIMATED_MS_PER_SLOT: u64 = 400;

/// Slots per epoch assumed when estimating epochs (about two days).
pub const ESTIMATED_SLOTS_PER_EPOCH: u64 = 432_000;

/// The interval maintenance runs at: the requested one, at least the minimum.
pub fn effective_interval_ms(requested_ms: u64) -> (r: u64)
    ensures
        r as int == (if requested_ms >= MIN_MAINTENANCE_INTERVAL_SECS * 1000 {
            requested_ms as int
        } else {
            MIN_MAINTENANCE_INTERVAL_SECS * 1000
        }),
{
    if requested_ms >= MIN_MAINTENANCE_INTERVAL_SECS * 1000 {
        requested_ms
    } else {
        MIN_MAINTENANCE_INTERVAL_SECS * 1000
    }
}

/// The slot and epoch maintenance assumes at its `tick_count`-th tick, ticking every
/// `interval_ms`: each tick advances `interval_ms / 400` slots (saturating), and an epoch is
/// 432 000 slots.
pub fn estimated_slot_and_epoch(tick_count: u64, interval_ms: u64) -> (r: (u64, u64))
    ensures
        r.0 == crate::arith::sat_mul_spec(tick_count as int, (interval_ms / ESTIMATED_MS_PER_SLOT) as int),
        r.1 == r.0 / ESTIMATED_SLOTS_PER_EPOCH,
{
    let increment = interval_ms / ESTIMATED_MS_PER_SLOT;
    let slot = crate::arith::sat_mul(tick_count, increment);
    (slot, slot / ESTIMATED_SLOTS_PER_EPOCH)
}

/// `a + 1`, wrapping at `u64::MAX` as an atomic counter does.
pub open spec fn bump(a: u64) -> u64 {
    vstd::wrapping::u64_specs::wrapping_add(a, 1)
}

/// Counters of the adapter's operations.
#[derive(Debug, Clone, Copy)]
pub struct AtomicTierStats {
    /// Hot-cache hits.
    pub hot_hits: u64,
    /// Hot-cache misses.
    pub hot_misses: u64,
    /// Hot-cache inserts.
    pub hot_inserts: u64,
    /// Accounts evicted from the hot cache.
    pub hot_evictions: u64,
    /// Promotions from warm to hot.
    pub warm_to_hot_promotions: u64,
    /// Accounts archived to cold storage.
    pub cold_archives: u64,
    /// Accounts revived from cold storage.
    pub cold_revivals: u64,
    /// Maintenance ticks run.
    pub maintenance_ticks: u64,
}

/// The counters with every value zero.
pub open spec fn zero_counters() -> AtomicTierStats {
    AtomicTierStats {
        hot_hits: 0,
        hot_misses: 0,
        hot_inserts: 0,
        hot_evictions: 0,
        warm_to_hot_promotions: 0,
        cold_archives: 0,
        cold_revivals: 0,
        maintenance_ticks: 0,
    }
}

/// The statistics the counters report: hits, misses and tier movements, all else zero.
pub open spec fn snapshot_spec(c: AtomicTierStats) -> TierStats {
    TierStats {
        total_hits: c.hot_hits,
        total_misses: c.hot_misses,
        hot_to_warm_demotions: c.hot_evictions,
        warm_to_hot_promotions: c.warm_to_hot_promotions,
        warm_to_cold_archives: c.cold_archives,
        cold_revivals: c.cold_revivals,
        ..zero_stats()
    }
}

impl Default for AtomicTierStats {
    /// All counters zero.
    fn default() -> (r: Self)
        ensures
            r == zero_counters(),
    {
        AtomicTierStats {
            hot_hits: 0,
            hot_misses: 0,
            hot_inserts: 0,
            hot_evictions: 0,
            warm_to_hot_promotions: 0,
            cold_archives: 0,
            cold_revivals: 0,
            maintenance_ticks: 0,
        }
    }
}

impl AtomicTierStats {
    /// The statistics the counters report.
    pub fn snapshot(&self) -> (r: TierStats)
        ensures
            r == snapshot_spec(*self),
    {
        let mut s = TierStats::default();
        s.total_hits = self.hot_hits;
        s.total_misses = self.hot_misses;
        s.hot_to_warm_demotions = self.hot_evictions;
        s.warm_to_hot_promotions = self.warm_to_hot_promotions;
        s.warm_to_cold_archives = self.cold_archives;
        s.cold_revivals = self.cold_revivals;
        s
    }
}

/// The tiered storage layer over the accounts database.
#[derive(Debug)]
pub struct TRv1StorageAdapter {
    hot_cache: AccountCache,
    config: TieredStorageConfig,
    rent_config: StateRentConfig,
    archive_index: ArchiveIndex,
    stats: AtomicTierStats,
}

impl TRv1StorageAdapter {
    /// The hot cache.
    pub closed spec fn cache_spec(&self) -> AccountCache {
        self.hot_cache
    }

    /// The archive index.
    pub closed spec fn index_spec(&self) -> ArchiveIndex {
        self.archive_index
    }

    /// The operation counters.
    pub closed spec fn counters(&self) -> AtomicTierStats {
        self.stats
    }

    /// The tier configuration.
    pub closed spec fn config_spec(&self) -> TieredStorageConfig {
        self.config
    }

    /// The rent configuration.
    pub closed spec fn rent_config_spec(&self) -> StateRentConfig {
        self.rent_config
    }

    /// The adapter's invariant: the cache and the index are well formed, and the cache runs on
    /// the adapter's configuration.
    pub closed spec fn wf(&self) -> bool {
        &&& self.hot_cache.wf()
        &&& self.archive_index.wf()
        &&& self.hot_cache.config_spec() == self.config
    }

    /// An adapter with an empty cache and index.
    pub fn new(config: TieredStorageConfig, rent_config: StateRentConfig) -> (r: Self)
        ensures
            r.wf(),
            r.cache_spec()@ == Seq::<CachedAccount>::empty(),
            r.cache_spec().size() == 0,
            r.cache_spec().stats_spec() == zero_stats(),
            r.index_spec()@ == Map::<Pubkey, ArchivedAccount>::empty(),
            r.counters() == zero_counters(),
            r.config_spec() == config,
            r.rent_config_spec() == rent_config,
    {
        let cache = AccountCache::new(config.clone());
        TRv1StorageAdapter {
            hot_cache: cache,
            config,
            rent_config,
            archive_index: ArchiveIndex::new(),
            stats: AtomicTierStats::default(),
        }
    }

    /// Looks an account up in the hot cache, counting a hit or a miss; a hit promotes it.
    pub fn hot_cache_get(&mut self, pubkey: &Pubkey) -> (r: Option<AccountData>)
        requires
            old(self).wf(),
        ensures
            final(self).wf(),
            final(self).index_spec() == old(self).index_spec(),
            final(self).config_spec() == old(self).config_spec(),
            final(self).rent_config_spec() == old(self).rent_config_spec(),
            ({
                let s = old(self).cache_spec()@;
                let i = key_index(s, *pubkey);
                if i >= 0 {
                    &&& r matches Some(a) && a@ == s[i].data@
                    &&& final(self).counters() == (AtomicTierStats { hot_hits: bump(old(self).counters().hot_hits), ..old(self).counters() })
                } else {
                    &&& r is None
                    &&& final(self).counters() == (AtomicTierStats { hot_misses: bump(old(self).counters().hot_misses), ..old(self).counters() })
                }
            }),
    {
        let r = match self.hot_cache.get(pubkey) {
            Some(a) => Some(a.duplicate()),
            None => None,
        };
        match r {
            Some(_) => {
                self.stats.hot_hits = self.stats.hot_hits.wrapping_add(1);
            },
            None => {
                self.stats.hot_misses = self.stats.hot_misses.wrapping_add(1);
            },
        }
        r
    }

    /// Caches a copy of `account` under `pubkey` as the most recent entry; does not evict.
    pub fn hot_cache_insert(&mut self, pubkey: &Pubkey, account: &AccountData)
        requires
            old(self).wf(),
        ensures
            final(self).wf(),
            exists|c: AccountData| c@ == account@ && final(self).cache_spec()@ == crate::accounts::cache::insert_entries(
                old(self).cache_spec()@,
                *pubkey,
                c,
            ),
            ({
                let t = final(self).cache_spec()@;
                &&& key_index(t, *pubkey) == t.len() - 1
                &&& t[t.len() - 1].data@ == account@
            }),
            final(self).index_spec() == old(self).index_spec(),
            final(self).counters() == (AtomicTierStats { hot_inserts: bump(old(self).counters().hot_inserts), ..old(self).counters() }),
    {
        let copy = account.duplicate();
        let ghost s = self.hot_cache@;
        let ghost c = copy;
        self.hot_cache.insert(*pubkey, copy);
        proof {
            crate::accounts::cache::lemma_insert_lookup(s, *pubkey, c);
        }
        self.stats.hot_inserts = self.stats.hot_inserts.wrapping_add(1);
    }

    /// Removes `pubkey` from the hot cache, giving its account back.
    pub fn hot_cache_remove(&mut self, pubkey: &Pubkey) -> (r: Option<AccountData>)
        requires
            old(self).wf(),
        ensures
            final(self).wf(),
            ({
                let s = old(self).cache_spec()@;
                let i = key_index(s, *pubkey);
                &&& i >= 0 ==> r == Some(s[i].data) && final(self).cache_spec()@ == s.remove(i)
                &&& i < 0 ==> r is None && final(self).cache_spec()@ == s
            }),
            final(self).index_spec() == old(self).index_spec(),
            final(self).counters() == old(self).counters(),
    {
        self.hot_cache.remove(pubkey)
    }

    /// Evicts from the hot cache when it is above its watermark, counting the evictions;
    /// returns the evicted accounts for warm storage.
    pub fn maybe_evict(&mut self) -> (r: Vec<(Pubkey, AccountData)>)
        requires
            old(self).wf(),
        ensures
            final(self).wf(),
            final(self).index_spec() == old(self).index_spec(),
            ({
                let c = old(self).config_spec();
                let wm = watermark_spec(c.hot_cache_size, c.target_utilization_ppm);
                let s = old(self).cache_spec()@;
                if old(self).cache_spec().size() > wm {
                    let out = evict_spec(s, old(self).cache_spec().size(), wm as u64, c.eviction_batch_size as nat, c.eviction_policy is LFU);
                    &&& final(self).cache_spec()@ == out.0
                    &&& r@ == out.1.map_values(|e: CachedAccount| (e.pubkey, e.data))
                    &&& final(self).counters() == (AtomicTierStats {
                        hot_evictions: vstd::wrapping::u64_specs::wrapping_add(old(self).counters().hot_evictions, out.1.len() as u64),
                        ..old(self).counters()
                    })
                } else {
                    &&& r@.len() == 0
                    &&& final(self).cache_spec() == old(self).cache_spec()
                    &&& final(self).counters() == old(self).counters()
                }
            }),
    {
        if self.hot_cache.needs_eviction() {
            let evicted = self.hot_cache.evict_to_warm();
            let count = evicted.len() as u64;
            self.stats.hot_evictions = self.stats.hot_evictions.wrapping_add(count);
            evicted
        } else {
            Vec::new()
        }
    }

    /// One maintenance tick: counts the tick and evicts from the hot cache if it is above its
    /// watermark. Evicted accounts stay readable from the accounts database and are dropped.
    pub fn maintenance_tick(&mut self, current_slot: u64, current_epoch: u64)
        requires
            old(self).wf(),
        ensures
            final(self).wf(),
            final(self).index_spec() == old(self).index_spec(),
            final(self).counters().maintenance_ticks == bump(old(self).counters().maintenance_ticks),
            ({
                let c = old(self).config_spec();
                let wm = watermark_spec(c.hot_cache_size, c.target_utilization_ppm);
                let s = old(self).cache_spec()@;
                if old(self).cache_spec().size() > wm {
                    final(self).cache_spec()@ == evict_spec(
                        s,
                        old(self).cache_spec().size(),
                        wm as u64,
                        c.eviction_batch_size as nat,
                        c.eviction_policy is LFU,
                    ).0
                } else {
                    final(self).cache_spec() == old(self).cache_spec()
                }
            }),
    {
        self.stats.maintenance_ticks = self.stats.maintenance_ticks.wrapping_add(1);
        let _evicted = self.maybe_evict();
    }

    /// The first half of archiving an account to cold storage: `None` if the account is not
    /// eligible, else its record and the bytes to write to its cold-storage file.
    pub fn prepare_archive(
        &self,
        pubkey: &Pubkey,
        account: &AccountData,
        last_active_slot: u64,
        current_slot: u64,
        current_epoch: u64,
        archive_timestamp: u64,
    ) -> (r: Option<(ArchivedAccount, Vec<u8>)>)
        ensures
            r is Some <==> rent_expired_spec(account@, last_active_slot, current_slot, self.rent_config_spec()),
            r matches Some(p) ==> is_archive_record(
                p.0,
                *pubkey,
                account@,
                current_slot,
                current_epoch,
                cold_path_spec(self.rent_config_spec().cold_storage_path@, *pubkey),
                archive_timestamp,
            ) && p.1@ == encode_spec(account@),
    {
        if !check_rent_expiry(account, last_active_slot, current_slot, &self.rent_config) {
            return None;
        }
        Some(archive_account(pubkey, account, current_slot, current_epoch, &self.rent_config, archive_timestamp))
    }

    /// The second half, once the bytes are written: the account leaves the hot cache, its
    /// record enters the index, and the archival is counted.
    pub fn commit_archive(&mut self, archived: ArchivedAccount)
        requires
            old(self).wf(),
        ensures
            final(self).wf(),
            ({
                let s = old(self).cache_spec()@;
                let i = key_index(s, archived.pubkey);
                &&& i >= 0 ==> final(self).cache_spec()@ == s.remove(i)
                &&& i < 0 ==> final(self).cache_spec()@ == s
            }),
            final(self).index_spec()@ == old(self).index_spec()@.insert(archived.pubkey, archived),
            final(self).counters() == (AtomicTierStats { cold_archives: bump(old(self).counters().cold_archives), ..old(self).counters() }),
    {
        let key = archived.pubkey;
        let _ = self.hot_cache.remove(&key);
        self.archive_index.insert(archived);
        self.stats.cold_archives = self.stats.cold_archives.wrapping_add(1);
    }

    /// Whether `pubkey` is archived.
    pub fn is_archived(&self, pubkey: &Pubkey) -> (r: bool)
        requires
            self.wf(),
        ensures
            r == self.index_spec()@.dom().contains(*pubkey),
    {
        self.archive_index.is_archived(pubkey)
    }

    /// The statistics: the counters, with the hot tier's account count and size from the
    /// cache and the cold tier's account count from the index.
    pub fn stats(&self) -> (r: TierStats)
        requires
            self.wf(),
        ensures
            r == (TierStats {
                hot_accounts: self.cache_spec().stats_spec().hot_accounts,
                hot_size_bytes: self.cache_spec().stats_spec().hot_size_bytes,
                cold_accounts: self.index_spec()@.len() as u64,
                ..snapshot_spec(self.counters())
            }),
    {
        let mut s = self.stats.snapshot();
        let cache_stats = self.hot_cache.stats();
        s.hot_accounts = cache_stats.hot_accounts;
        s.hot_size_bytes = cache_stats.hot_size_bytes;
        s.cold_accounts = self.archive_index.len() as u64;
        s
    }

    /// The number of accounts in the hot cache.
    pub fn hot_cache_len(&self) -> (r: usize)
        ensures
            r == self.cache_spec()@.len(),
    {
        self.hot_cache.len()
    }

    /// The hot cache.
    pub fn hot_cache(&self) -> (r: &AccountCache)
        ensures
            *r == self.cache_spec(),
    {
        &self.hot_cache
    }

    /// The tier configuration.
    pub fn config(&self) -> (r: &TieredStorageConfig)
        ensures
            *r == self.config_spec(),
    {
        &self.config
    }

    /// The rent configuration.
    pub fn rent_config(&self) -> (r: &StateRentConfig)
        ensures
            *r == self.rent_config_spec(),
    {
        &self.rent_config
    }
}

} // verus!

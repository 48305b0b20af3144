//! Configuration and statistics of the three storage tiers: the hot RAM cache, warm SSD
//! storage and cold archive.

use vstd::prelude::*;
use crate::arith::{sat_add, sat_add_spec};
use crate::decimal::{decimal, decimal_spec, ppm_text, ppm_to_text};

verus! {

/// Default hot cache size: 16 GiB.
pub const DEFAULT_HOT_CACHE_SIZE: u64 = 16 * 1024 * 1024 * 1024;

/// Largest recommended hot cache size: 64 GiB.
pub const MAX_HOT_CACHE_SIZE: u64 = 64 * 1024 * 1024 * 1024;

/// Default slots of inactivity before an account moves to the warm tier.
pub const DEFAULT_WARM_THRESHOLD_SLOTS: u64 = 1_000_000;

/// Default days of inactivity before an account is archived.
pub const DEFAULT_COLD_THRESHOLD_DAYS: u64 = 365;

/// Parts per million in a whole: a utilisation of one million is 100 %.
pub const PPM: u64 = 1_000_000;

/// Which accounts leave the hot cache first when it is over its watermark.
#[derive(Debug, Clone, Copy, PartialEq, Eq, Structural)]
pub enum EvictionPolicy {
    /// Least recently used first.
    LRU,
    /// Least frequently used first, among the least recently used quarter.
    LFU,
    /// Adaptive replacement; evicts as LRU does.
    ARC,
}

impl Default for EvictionPolicy {
    /// LRU.
    fn default() -> (r: Self)
        ensures
            r == EvictionPolicy::LRU,
    {
        EvictionPolicy::LRU
    }
}

impl EvictionPolicy {
    /// The policy's name: `LRU`, `LFU` or `ARC`.
    pub fn to_string(&self) -> (r: String)
        ensures
            *self is LRU ==> r@ == "LRU"@,
            *self is LFU ==> r@ == "LFU"@,
            *self is ARC ==> r@ == "ARC"@,
    {
        match self {
            EvictionPolicy::LRU => String::from_str("LRU"),
            EvictionPolicy::LFU => String::from_str("LFU"),
            EvictionPolicy::ARC => String::from_str("ARC"),
        }
    }
}

/// Configuration of the storage tiers.
#[derive(Debug)]
pub struct TieredStorageConfig {
    /// Largest size of the hot cache, in bytes.
    pub hot_cache_size: u64,
    /// Which accounts the hot cache evicts first.
    pub eviction_policy: EvictionPolicy,
    /// Directory of warm storage.
    pub warm_storage_path: String,
    /// Directory of cold storage.
    pub cold_storage_path: String,
    /// Slots of inactivity before demotion from hot to warm.
    pub warm_threshold_slots: u64,
    /// Days of inactivity before archival from warm to cold.
    pub cold_threshold_days: u64,
    /// Whether state rent expiry is enabled.
    pub enable_state_rent_expiry: bool,
    /// Most accounts evicted in one batch.
    pub eviction_batch_size: usize,
    /// Share of `hot_cache_size` above which eviction starts, in parts per million.
    pub target_utilization_ppm: u64,
}

impl Clone for TieredStorageConfig {
    fn clone(&self) -> (r: Self)
        ensures
            r == *self,
    {
        TieredStorageConfig {
            hot_cache_size: self.hot_cache_size,
            eviction_policy: self.eviction_policy,
            warm_storage_path: self.warm_storage_path.clone(),
            cold_storage_path: self.cold_storage_path.clone(),
            warm_threshold_slots: self.warm_threshold_slots,
            cold_threshold_days: self.cold_threshold_days,
            enable_state_rent_expiry: self.enable_state_rent_expiry,
            eviction_batch_size: self.eviction_batch_size,
            target_utilization_ppm: self.target_utilization_ppm,
        }
    }
}

/// The eviction watermark: `hot_cache_size * target_utilization`, rounded down and capped at
/// `u64::MAX`.
pub open spec fn watermark_spec(hot_cache_size: u64, target_utilization_ppm: u64) -> int {
    let w = hot_cache_size * target_utilization_ppm / (PPM as int);
    if w > u64::MAX { u64::MAX as int } else { w }
}

/// Whether a configuration is valid: a nonzero cache of at most 64 GiB, a utilisation in
/// (0, 100 %], a nonzero batch and a nonzero cold threshold.
pub open spec fn tiered_config_valid(c: TieredStorageConfig) -> bool {
    &&& 0 < c.hot_cache_size <= MAX_HOT_CACHE_SIZE
    &&& 0 < c.target_utilization_ppm <= PPM
    &&& c.eviction_batch_size > 0
    &&& c.cold_threshold_days > 0
}

/// The error for a hot cache above the maximum.
pub open spec fn cache_too_large_text(size: u64) -> Seq<char> {
    "hot_cache_size "@ + decimal_spec(size as nat) + " exceeds maximum "@ + decimal_spec(MAX_HOT_CACHE_SIZE as nat)
        + " (64 GiB)"@
}

/// The error for a utilisation target outside (0, 1], the target printed as a decimal.
pub open spec fn utilization_range_text(ppm: u64) -> Seq<char> {
    "target_utilization must be in (0.0, 1.0], got "@ + ppm_text(ppm as nat)
}

fn cache_too_large_reason(size: u64) -> (r: String)
    ensures
        r@ == cache_too_large_text(size),
{
    let mut s = String::new();
    s.append("hot_cache_size ");
    s.append(decimal(size).as_str());
    s.append(" exceeds maximum ");
    s.append(decimal(MAX_HOT_CACHE_SIZE).as_str());
    s.append(" (64 GiB)");
    proof {
        assert(s@ =~= cache_too_large_text(size));
    }
    s
}

fn utilization_range_reason(ppm: u64) -> (r: String)
    ensures
        r@ == utilization_range_text(ppm),
{
    let mut s = String::new();
    s.append("target_utilization must be in (0.0, 1.0], got ");
    s.append(ppm_to_text(ppm).as_str());
    proof {
        assert(s@ =~= utilization_range_text(ppm));
    }
    s
}

impl Default for TieredStorageConfig {
    /// A 16 GiB LRU hot cache evicting from 90 % in batches of 4096, warm after 1 000 000
    /// slots, cold after 365 days, rent expiry off.
    fn default() -> (r: Self)
        ensures
            r.hot_cache_size == DEFAULT_HOT_CACHE_SIZE,
            r.eviction_policy == EvictionPolicy::LRU,
            r.warm_storage_path@ == "trv1-warm-storage"@,
            r.cold_storage_path@ == "trv1-cold-storage"@,
            r.warm_threshold_slots == DEFAULT_WARM_THRESHOLD_SLOTS,
            r.cold_threshold_days == DEFAULT_COLD_THRESHOLD_DAYS,
            !r.enable_state_rent_expiry,
            r.eviction_batch_size == 4096,
            r.target_utilization_ppm == 900_000,
    {
        TieredStorageConfig {
            hot_cache_size: DEFAULT_HOT_CACHE_SIZE,
            eviction_policy: EvictionPolicy::LRU,
            warm_storage_path: String::from_str("trv1-warm-storage"),
            cold_storage_path: String::from_str("trv1-cold-storage"),
            warm_threshold_slots: DEFAULT_WARM_THRESHOLD_SLOTS,
            cold_threshold_days: DEFAULT_COLD_THRESHOLD_DAYS,
            enable_state_rent_expiry: false,
            eviction_batch_size: 4096,
            target_utilization_ppm: 900_000,
        }
    }
}

impl TieredStorageConfig {
    /// A small configuration for tests: 64 MiB, eviction from 80 % in batches of 64.
    pub fn for_testing() -> (r: Self)
        ensures
            r.hot_cache_size == 64 * 1024 * 1024,
            r.eviction_policy == EvictionPolicy::LRU,
            r.warm_storage_path@ == "/tmp/trv1-test-warm"@,
            r.cold_storage_path@ == "/tmp/trv1-test-cold"@,
            r.warm_threshold_slots == 100,
            r.cold_threshold_days == 1,
            r.enable_state_rent_expiry,
            r.eviction_batch_size == 64,
            r.target_utilization_ppm == 800_000,
    {
        TieredStorageConfig {
            hot_cache_size: 64 * 1024 * 1024,
            eviction_policy: EvictionPolicy::LRU,
            warm_storage_path: String::from_str("/tmp/trv1-test-warm"),
            cold_storage_path: String::from_str("/tmp/trv1-test-cold"),
            warm_threshold_slots: 100,
            cold_threshold_days: 1,
            enable_state_rent_expiry: true,
            eviction_batch_size: 64,
            target_utilization_ppm: 800_000,
        }
    }

    /// The preset for 32 GB validators: a 24 GiB LRU cache, the rest default.
    pub fn for_32gb_validator() -> (r: Self)
        ensures
            r.hot_cache_size == 24 * 1024 * 1024 * 1024,
            r.eviction_policy == EvictionPolicy::LRU,
            r.warm_storage_path@ == "trv1-warm-storage"@,
            r.cold_storage_path@ == "trv1-cold-storage"@,
            r.warm_threshold_slots == DEFAULT_WARM_THRESHOLD_SLOTS,
            r.cold_threshold_days == DEFAULT_COLD_THRESHOLD_DAYS,
            !r.enable_state_rent_expiry,
            r.eviction_batch_size == 4096,
            r.target_utilization_ppm == 900_000,
    {
        let mut c = TieredStorageConfig::default();
        c.hot_cache_size = 24 * 1024 * 1024 * 1024;
        c.eviction_policy = EvictionPolicy::LRU;
        c
    }

    /// The preset for validators with 64 GB or more: a 48 GiB ARC cache evicting in batches
    /// of 8192, the rest default.
    pub fn for_64gb_validator() -> (r: Self)
        ensures
            r.hot_cache_size == 48 * 1024 * 1024 * 1024,
            r.eviction_policy == EvictionPolicy::ARC,
            r.warm_storage_path@ == "trv1-warm-storage"@,
            r.cold_storage_path@ == "trv1-cold-storage"@,
            r.warm_threshold_slots == DEFAULT_WARM_THRESHOLD_SLOTS,
            r.cold_threshold_days == DEFAULT_COLD_THRESHOLD_DAYS,
            !r.enable_state_rent_expiry,
            r.eviction_batch_size == 8192,
            r.target_utilization_ppm == 900_000,
    {
        let mut c = TieredStorageConfig::default();
        c.hot_cache_size = 48 * 1024 * 1024 * 1024;
        c.eviction_policy = EvictionPolicy::ARC;
        c.eviction_batch_size = 8192;
        c
    }

    /// Checks the configuration; the error names the first field that is out of range, in
    /// this order: cache size, utilisation target, eviction batch, cold threshold.
    pub fn validate(&self) -> (r: Result<(), String>)
        ensures
            r is Ok <==> tiered_config_valid(*self),
            self.hot_cache_size == 0 ==> (r matches Err(m) && m@ == "hot_cache_size must be > 0"@),
            self.hot_cache_size > MAX_HOT_CACHE_SIZE ==> (r matches Err(m) && m@ == cache_too_large_text(self.hot_cache_size)),
            0 < self.hot_cache_size <= MAX_HOT_CACHE_SIZE && !(0 < self.target_utilization_ppm <= PPM) ==> (r matches Err(m)
                && m@ == utilization_range_text(self.target_utilization_ppm)),
            0 < self.hot_cache_size <= MAX_HOT_CACHE_SIZE && 0 < self.target_utilization_ppm <= PPM
                && self.eviction_batch_size == 0 ==> (r matches Err(m) && m@ == "eviction_batch_size must be > 0"@),
            0 < self.hot_cache_size <= MAX_HOT_CACHE_SIZE && 0 < self.target_utilization_ppm <= PPM
                && self.eviction_batch_size > 0 && self.cold_threshold_days == 0 ==> (r matches Err(m) && m@
                == "cold_threshold_days must be > 0"@),
    {
        if self.hot_cache_size == 0 {
            return Err(String::from_str("hot_cache_size must be > 0"));
        }
        if self.hot_cache_size > MAX_HOT_CACHE_SIZE {
            return Err(cache_too_large_reason(self.hot_cache_size));
        }
        if self.target_utilization_ppm == 0 || self.target_utilization_ppm > PPM {
            return Err(utilization_range_reason(self.target_utilization_ppm));
        }
        if self.eviction_batch_size == 0 {
            return Err(String::from_str("eviction_batch_size must be > 0"));
        }
        if self.cold_threshold_days == 0 {
            return Err(String::from_str("cold_threshold_days must be > 0"));
        }
        Ok(())
    }

    /// The size above which eviction starts: `hot_cache_size * target_utilization`, rounded
    /// down.
    pub fn eviction_watermark(&self) -> (r: u64)
        ensures
            r == watermark_spec(self.hot_cache_size, self.target_utilization_ppm),
    {
        let a: u128 = self.hot_cache_size as u128;
        let b: u128 = self.target_utilization_ppm as u128;
        assert(a * b <= u64::MAX * u64::MAX) by (nonlinear_arith)
            requires
                a <= u64::MAX,
                b <= u64::MAX,
        ;
        let w: u128 = a * b / (PPM as u128);
        if w > u64::MAX as u128 {
            u64::MAX
        } else {
            w as u64
        }
    }

    /// How many accounts of `avg_account_size` bytes fit in the hot cache; zero for a zero
    /// size.
    pub fn estimated_hot_capacity(&self, avg_account_size: u64) -> (r: u64)
        ensures
            avg_account_size == 0 ==> r == 0,
            avg_account_size > 0 ==> r == self.hot_cache_size / avg_account_size,
    {
        if avg_account_size == 0 {
            return 0;
        }
        self.hot_cache_size / avg_account_size
    }
}

/// Counters of the storage tiers.
#[derive(Debug, Clone, Copy)]
pub struct TierStats {
    /// Accounts in the hot tier.
    pub hot_accounts: u64,
    /// Bytes in the hot tier.
    pub hot_size_bytes: u64,
    /// Accounts in the warm tier.
    pub warm_accounts: u64,
    /// Bytes in the warm tier.
    pub warm_size_bytes: u64,
    /// Accounts in the cold tier.
    pub cold_accounts: u64,
    /// Bytes in the cold tier.
    pub cold_size_bytes: u64,
    /// Hot-cache hits since startup.
    pub total_hits: u64,
    /// Hot-cache misses since startup.
    pub total_misses: u64,
    /// Promotions from warm to hot.
    pub warm_to_hot_promotions: u64,
    /// Demotions from hot to warm.
    pub hot_to_warm_demotions: u64,
    /// Archivals from warm to cold.
    pub warm_to_cold_archives: u64,
    /// Revivals from cold.
    pub cold_revivals: u64,
}

impl Default for TierStats {
    /// All counters zero.
    fn default() -> (r: Self)
        ensures
            r == zero_stats(),
    {
        TierStats {
            hot_accounts: 0,
            hot_size_bytes: 0,
            warm_accounts: 0,
            warm_size_bytes: 0,
            cold_accounts: 0,
            cold_size_bytes: 0,
            total_hits: 0,
            total_misses: 0,
            warm_to_hot_promotions: 0,
            hot_to_warm_demotions: 0,
            warm_to_cold_archives: 0,
            cold_revivals: 0,
        }
    }
}

/// The statistics with every counter zero.
pub open spec fn zero_stats() -> TierStats {
    TierStats {
        hot_accounts: 0,
        hot_size_bytes: 0,
        warm_accounts: 0,
        warm_size_bytes: 0,
        cold_accounts: 0,
        cold_size_bytes: 0,
        total_hits: 0,
        total_misses: 0,
        warm_to_hot_promotions: 0,
        hot_to_warm_demotions: 0,
        warm_to_cold_archives: 0,
        cold_revivals: 0,
    }
}

impl TierStats {
    /// Accounts across the three tiers (saturating).
    pub fn total_accounts(&self) -> (r: u64)
        ensures
            r == sat_add_spec(sat_add_spec(self.hot_accounts as int, self.warm_accounts as int), self.cold_accounts as int),
    {
        sat_add(sat_add(self.hot_accounts, self.warm_accounts), self.cold_accounts)
    }

    /// Bytes across the three tiers (saturating).
    pub fn total_size_bytes(&self) -> (r: u64)
        ensures
            r == sat_add_spec(sat_add_spec(self.hot_size_bytes as int, self.warm_size_bytes as int), self.cold_size_bytes as int),
    {
        sat_add(sat_add(self.hot_size_bytes, self.warm_size_bytes), self.cold_size_bytes)
    }
}

/// The tier an account is in.
#[derive(Debug, Clone, Copy, PartialEq, Eq, Hash, Structural)]
pub enum AccountTier {
    /// The RAM cache.
    Hot,
    /// SSD storage.
    Warm,
    /// The archive.
    Cold,
}

impl AccountTier {
    /// The tier's name: `Hot (RAM)`, `Warm (SSD)` or `Cold (Archive)`.
    pub fn to_string(&self) -> (r: String)
        ensures
            *self is Hot ==> r@ == "Hot (RAM)"@,
            *self is Warm ==> r@ == "Warm (SSD)"@,
            *self is Cold ==> r@ == "Cold (Archive)"@,
    {
        match self {
            AccountTier::Hot => String::from_str("Hot (RAM)"),
            AccountTier::Warm => String::from_str("Warm (SSD)"),
            AccountTier::Cold => String::from_str("Cold (Archive)"),
        }
    }
}

} // verus!

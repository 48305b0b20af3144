//! Account storage scenarios: rent expiry, cold-storage encoding, archival and revival, the
//! archive index, Merkle proofs, tier configuration, the hot cache and the storage adapter.

use trv1::accounts::account::AccountData;
use trv1::accounts::adapter::{effective_interval_ms, estimated_slot_and_epoch, TRv1StorageAdapter};
use trv1::accounts::archive::{archive_account, get_archive_proof, revive_account, ArchiveIndex, ArchivedAccount, RevivalError};
use trv1::accounts::cache::AccountCache;
use trv1::accounts::paths::cold_storage_path_for_account;
use trv1::accounts::cold_storage::{
    deserialize_account_from_cold_storage, serialize_account_for_cold_storage, ColdStorageError,
};
use trv1::accounts::rent::{
    check_rent_expiry, combine_hashes, compute_account_hash, is_system_program, MerkleProof, StateRentConfig,
    DEFAULT_ARCHIVE_AFTER_DAYS, DEFAULT_LAMPORTS_PER_BYTE_YEAR, ESTIMATED_SLOTS_PER_DAY,
};
use trv1::accounts::tiered::{
    AccountTier, EvictionPolicy, TierStats, TieredStorageConfig, DEFAULT_COLD_THRESHOLD_DAYS, DEFAULT_HOT_CACHE_SIZE,
    DEFAULT_WARM_THRESHOLD_SLOTS, MAX_HOT_CACHE_SIZE,
};
use trv1::primitives::{Hash32, Pubkey};

fn pk(n: u64) -> Pubkey {
    let mut bytes = [0u8; 32];
    bytes[..8].copy_from_slice(&n.to_be_bytes());
    bytes[8..16].copy_from_slice(&n.wrapping_mul(0x9E37_79B9_7F4A_7C15).to_le_bytes());
    Pubkey { bytes }
}

fn sha(data: &[u8]) -> Hash32 {
    Hash32 { bytes: solana_sha256_hasher::hash(data).to_bytes() }
}

fn make_account(lamports: u64, data_len: usize, owner: u64) -> AccountData {
    AccountData { lamports, owner: pk(owner), executable: false, data: vec![42u8; data_len] }
}

fn plain_account(data_len: usize) -> AccountData {
    AccountData { lamports: 0, owner: Pubkey::default(), executable: false, data: vec![0u8; data_len] }
}

// ── rent ────────────────────────────────────────────────────────────────────

#[test]
fn state_rent_expiry_test_default_config() {
    let config = StateRentConfig::default();
    assert_eq!(config.lamports_per_byte_year, DEFAULT_LAMPORTS_PER_BYTE_YEAR);
    assert_eq!(config.archive_after_days, DEFAULT_ARCHIVE_AFTER_DAYS);
    assert!(config.allow_revival);
    assert!(config.exempt_system_programs);
}

#[test]
fn test_calculate_rent() {
    let config = StateRentConfig { lamports_per_byte_year: 1000, ..Default::default() };
    assert_eq!(config.calculate_rent(100, 1), 100_000);
    assert_eq!(config.calculate_rent(100, 2), 200_000);
    assert_eq!(config.calculate_rent(0, 1), 0);
}

#[test]
fn calculate_rent_saturates() {
    let config = StateRentConfig { lamports_per_byte_year: u64::MAX, ..Default::default() };
    assert_eq!(config.calculate_rent(2, 1), u64::MAX);
    assert_eq!(config.minimum_balance(1, 3), u64::MAX);
}

#[test]
fn test_check_rent_expiry_inactive_account() {
    let config = StateRentConfig { archive_after_days: 365, exempt_system_programs: false, ..Default::default() };
    let account = make_account(1000, 256, 1);
    assert!(check_rent_expiry(&account, 0, 400 * ESTIMATED_SLOTS_PER_DAY, &config));
}

#[test]
fn test_check_rent_expiry_active_account() {
    let config = StateRentConfig { archive_after_days: 365, exempt_system_programs: false, ..Default::default() };
    let account = make_account(1000, 256, 1);
    let current_slot = 100 * ESTIMATED_SLOTS_PER_DAY;
    let last_active_slot = current_slot - 50 * ESTIMATED_SLOTS_PER_DAY;
    assert!(!check_rent_expiry(&account, last_active_slot, current_slot, &config));
}

#[test]
fn test_check_rent_expiry_small_account_exempt() {
    let config = StateRentConfig { archive_after_days: 1, exempt_system_programs: false, ..Default::default() };
    let account = make_account(1000, 10, 1);
    assert!(!check_rent_expiry(&account, 0, 1000 * ESTIMATED_SLOTS_PER_DAY, &config));
}

#[test]
fn test_check_rent_expiry_zero_lamport_exempt() {
    let config = StateRentConfig { archive_after_days: 1, exempt_system_programs: false, ..Default::default() };
    let account = make_account(0, 256, 1);
    assert!(!check_rent_expiry(&account, 0, 1000 * ESTIMATED_SLOTS_PER_DAY, &config));
}

#[test]
fn system_program_accounts_are_exempt_when_configured() {
    let config = StateRentConfig { archive_after_days: 1, ..Default::default() };
    let account = AccountData { lamports: 1000, owner: Pubkey::default(), executable: false, data: vec![1u8; 256] };
    assert!(is_system_program(&Pubkey::default()));
    assert!(!check_rent_expiry(&account, 0, 10 * ESTIMATED_SLOTS_PER_DAY, &config));
    let not_exempt = StateRentConfig { exempt_system_programs: false, ..config };
    assert!(check_rent_expiry(&account, 0, 10 * ESTIMATED_SLOTS_PER_DAY, &not_exempt));
}

#[test]
fn test_revival_deposit_calculation() {
    let config = StateRentConfig { lamports_per_byte_year: 1000, ..Default::default() };
    assert_eq!(config.revival_deposit(100), 200_000);
}

// ── cold storage and revival ───────────────────────────────────────────────

#[test]
fn test_serialize_deserialize_roundtrip() {
    let account = make_account(42_000, 512, 3);
    let serialized = serialize_account_for_cold_storage(&account);
    let deserialized = deserialize_account_from_cold_storage(&serialized).unwrap();
    assert_eq!(deserialized.lamports, account.lamports);
    assert_eq!(deserialized.owner, account.owner);
    assert_eq!(deserialized.executable, account.executable);
    assert_eq!(deserialized.data, account.data);
}

#[test]
fn cold_storage_layout() {
    let account = AccountData { lamports: 0x0102, owner: pk(5), executable: true, data: vec![9, 8, 7] };
    let bytes = serialize_account_for_cold_storage(&account);
    assert_eq!(bytes.len(), 49 + 3);
    assert_eq!(&bytes[0..8], &0x0102u64.to_le_bytes());
    assert_eq!(&bytes[8..40], &pk(5).bytes);
    assert_eq!(bytes[40], 1);
    assert_eq!(&bytes[41..49], &3u64.to_le_bytes());
    assert_eq!(&bytes[49..], &[9, 8, 7]);
}

#[test]
fn test_deserialize_truncated_data() {
    let result = deserialize_account_from_cold_storage(&[0u8; 10]);
    assert!(result.is_err());
    assert!(matches!(result, Err(ColdStorageError::TooShort)));
}

#[test]
fn deserialize_reports_missing_data_bytes() {
    let mut bytes = serialize_account_for_cold_storage(&make_account(1, 10, 1));
    bytes.truncate(49 + 4);
    assert!(matches!(
        deserialize_account_from_cold_storage(&bytes),
        Err(ColdStorageError::Truncated { expected: 10, got: 4 })
    ));
}

#[test]
fn account_hash_is_sha256_of_key_balance_owner_flag_and_data() {
    let account = AccountData { lamports: 77, owner: pk(2), executable: true, data: vec![1, 2] };
    let mut preimage = Vec::new();
    preimage.extend_from_slice(&pk(1).bytes);
    preimage.extend_from_slice(&77u64.to_le_bytes());
    preimage.extend_from_slice(&pk(2).bytes);
    preimage.push(1);
    preimage.extend_from_slice(&[1, 2]);
    assert_eq!(compute_account_hash(&pk(1), &account), sha(&preimage));
}

#[test]
fn test_archive_and_revive_roundtrip() {
    let config = StateRentConfig::for_testing();
    let pubkey = pk(10);
    let account = make_account(100_000, 256, 11);
    let (archived, stored) = archive_account(&pubkey, &account, 42, 1, &config, 0);
    assert_eq!(archived.pubkey, pubkey);
    assert!(archived.storage_path.starts_with("/tmp/trv1-test-cold/00/00/"));
    assert!(archived.storage_path.ends_with(".bin"));
    assert_eq!(archived.archive_slot, 42);
    assert_eq!(archived.data_len, 256);
    assert_eq!(archived.lamports_at_archive, 100_000);
    let revival_deposit = config.revival_deposit(256);
    let revived = revive_account(&archived, revival_deposit, &config, Ok(stored)).unwrap();
    assert_eq!(revived.data, account.data);
    assert_eq!(revived.lamports, account.lamports);
    assert_eq!(revived.owner, account.owner);
}

#[test]
fn test_revive_insufficient_deposit() {
    let config = StateRentConfig::for_testing();
    let account = make_account(100_000, 256, 11);
    let (archived, stored) = archive_account(&pk(10), &account, 42, 1, &config, 0);
    let result = revive_account(&archived, 1, &config, Ok(stored));
    assert!(matches!(result, Err(RevivalError::InsufficientRentDeposit { required: 512_000, provided: 1 })));
}

#[test]
fn test_revive_disabled() {
    let config = StateRentConfig { allow_revival: false, ..StateRentConfig::for_testing() };
    let account = make_account(100_000, 256, 11);
    let (archived, stored) = archive_account(&pk(10), &account, 42, 1, &config, 0);
    let result = revive_account(&archived, 1_000_000, &config, Ok(stored));
    assert!(matches!(result, Err(RevivalError::RevivalDisabled)));
}

#[test]
fn revive_detects_tampered_data() {
    let config = StateRentConfig::for_testing();
    let account = make_account(100_000, 256, 11);
    let (archived, mut stored) = archive_account(&pk(10), &account, 42, 1, &config, 0);
    let last = stored.len() - 1;
    stored[last] ^= 1;
    let result = revive_account(&archived, 1_000_000, &config, Ok(stored));
    assert!(matches!(result, Err(RevivalError::IntegrityCheckFailed { .. })));
}

#[test]
fn revive_reports_storage_errors() {
    let config = StateRentConfig::for_testing();
    let account = make_account(100_000, 256, 11);
    let (archived, _) = archive_account(&pk(10), &account, 42, 1, &config, 0);
    match revive_account(&archived, 1_000_000, &config, Err(String::from("no such file"))) {
        Err(RevivalError::StorageError(m)) => assert_eq!(m, "no such file"),
        other => panic!("unexpected {other:?}"),
    }
    let result = revive_account(&archived, 1_000_000, &config, Ok(vec![0u8; 3]));
    assert!(matches!(result, Err(RevivalError::StorageError(_))));
    match revive_account(&archived, 1_000_000, &config, Ok(vec![0u8; 3])) {
        Err(RevivalError::StorageError(m)) => {
            assert_eq!(m, "Failed to deserialize account: Cold storage data too short")
        },
        other => panic!("unexpected {other:?}"),
    }
    let mut truncated = vec![0u8; 49];
    truncated[41] = 10;
    truncated.push(1);
    match revive_account(&archived, 1_000_000, &config, Ok(truncated)) {
        Err(RevivalError::StorageError(m)) => assert_eq!(
            m,
            "Failed to deserialize account: Cold storage data truncated: expected 10 data bytes, got 1"
        ),
        other => panic!("unexpected {other:?}"),
    }
}

#[test]
fn revive_checks_the_merkle_proof() {
    let config = StateRentConfig::for_testing();
    let account = make_account(100_000, 256, 11);
    let (mut archived, stored) = archive_account(&pk(10), &account, 42, 1, &config, 0);
    let sibling = sha(b"sibling");
    let good_root = combine_hashes(&archived.account_hash, &sibling);
    archived.merkle_proof = Some(MerkleProof {
        leaf_hash: archived.account_hash,
        proof_hashes: vec![sibling],
        root_hash: good_root,
        proof_slot: 42,
        leaf_index: 0,
    });
    assert!(revive_account(&archived, 1_000_000, &config, Ok(stored.clone())).is_ok());
    archived.merkle_proof.as_mut().unwrap().root_hash = sibling;
    assert!(matches!(revive_account(&archived, 1_000_000, &config, Ok(stored)), Err(RevivalError::MerkleProofFailed)));
}

fn sample_archived(pubkey: Pubkey, proof: Option<MerkleProof>) -> ArchivedAccount {
    ArchivedAccount {
        pubkey,
        archive_slot: 100,
        archive_epoch: 1,
        account_hash: Hash32::default(),
        lamports_at_archive: 1000,
        data_len: 256,
        owner: pk(77),
        executable: false,
        archive_timestamp: 0,
        storage_path: String::from("/tmp/test.bin"),
        merkle_proof: proof,
    }
}

#[test]
fn test_archive_index() {
    let mut index = ArchiveIndex::new();
    assert!(index.is_empty());
    let pubkey = pk(1);
    index.insert(sample_archived(pubkey, None));
    assert_eq!(index.len(), 1);
    assert!(index.is_archived(&pubkey));
    assert_eq!(index.total_archived, 1);
    let retrieved = index.get(&pubkey).unwrap();
    assert_eq!(retrieved.archive_slot, 100);
    let removed = index.remove(&pubkey).unwrap();
    assert_eq!(removed.pubkey, pubkey);
    assert!(index.is_empty());
    assert_eq!(index.total_revived, 1);
}

#[test]
fn archive_index_replaces_records_of_the_same_key() {
    let mut index = ArchiveIndex::new();
    index.insert(sample_archived(pk(1), None));
    let mut second = sample_archived(pk(1), None);
    second.archive_slot = 200;
    index.insert(second);
    assert_eq!(index.len(), 1);
    assert_eq!(index.total_archived, 2);
    assert_eq!(index.total_archived_bytes, 512);
    assert_eq!(index.get(&pk(1)).unwrap().archive_slot, 200);
    assert!(index.remove(&pk(2)).is_none());
    assert_eq!(index.total_revived, 0);
}

#[test]
fn archive_proof_lookup() {
    let mut index = ArchiveIndex::new();
    let proof = MerkleProof { leaf_hash: sha(b"a"), proof_hashes: vec![sha(b"b")], root_hash: sha(b"c"), proof_slot: 9, leaf_index: 3 };
    index.insert(sample_archived(pk(1), Some(proof)));
    index.insert(sample_archived(pk(2), None));
    let got = get_archive_proof(&pk(1), &index).unwrap();
    assert_eq!(got.leaf_hash, sha(b"a"));
    assert_eq!(got.proof_hashes, vec![sha(b"b")]);
    assert_eq!(got.leaf_index, 3);
    assert!(get_archive_proof(&pk(2), &index).is_none());
    assert!(get_archive_proof(&pk(3), &index).is_none());
}

#[test]
fn test_merkle_proof_verify() {
    let data_hash = sha(b"test account data");
    let sibling = sha(b"sibling");
    let root = combine_hashes(&data_hash, &sibling);
    let proof = MerkleProof { leaf_hash: data_hash, proof_hashes: vec![sibling], root_hash: root, proof_slot: 42, leaf_index: 0 };
    assert!(proof.verify(&data_hash));
    assert!(!proof.verify(&sha(b"wrong data")));
}

#[test]
fn merkle_proof_right_child_path() {
    let leaf = sha(b"leaf");
    let s0 = sha(b"s0");
    let s1 = sha(b"s1");
    // Index 1: right child at level 0, left child at level 1.
    let level1 = combine_hashes(&s0, &leaf);
    let root = combine_hashes(&level1, &s1);
    let proof = MerkleProof { leaf_hash: leaf, proof_hashes: vec![s0, s1], root_hash: root, proof_slot: 1, leaf_index: 1 };
    assert!(proof.verify(&leaf));
    let mut concatenated = Vec::new();
    concatenated.extend_from_slice(&s0.bytes);
    concatenated.extend_from_slice(&leaf.bytes);
    assert_eq!(level1, sha(&concatenated));
}

// ── tier configuration ─────────────────────────────────────────────────────

#[test]
fn tiered_storage_config_test_default_config() {
    let config = TieredStorageConfig::default();
    assert_eq!(config.hot_cache_size, DEFAULT_HOT_CACHE_SIZE);
    assert_eq!(config.eviction_policy, EvictionPolicy::LRU);
    assert_eq!(config.warm_threshold_slots, DEFAULT_WARM_THRESHOLD_SLOTS);
    assert_eq!(config.cold_threshold_days, DEFAULT_COLD_THRESHOLD_DAYS);
    assert!(!config.enable_state_rent_expiry);
    assert!(config.validate().is_ok());
}

#[test]
fn test_testing_config() {
    let config = TieredStorageConfig::for_testing();
    assert_eq!(config.hot_cache_size, 64 * 1024 * 1024);
    assert!(config.enable_state_rent_expiry);
    assert!(config.validate().is_ok());
}

#[test]
fn test_validation_rejects_zero_cache() {
    let mut config = TieredStorageConfig::default();
    config.hot_cache_size = 0;
    assert!(config.validate().is_err());
    assert_eq!(config.validate(), Err(String::from("hot_cache_size must be > 0")));
}

#[test]
fn test_validation_rejects_excessive_cache() {
    let mut config = TieredStorageConfig::default();
    config.hot_cache_size = MAX_HOT_CACHE_SIZE + 1;
    assert!(config.validate().is_err());
    assert_eq!(
        config.validate(),
        Err(String::from("hot_cache_size 68719476737 exceeds maximum 68719476736 (64 GiB)"))
    );
}

#[test]
fn test_validation_rejects_bad_utilization() {
    let mut config = TieredStorageConfig::default();
    config.target_utilization_ppm = 0;
    assert!(config.validate().is_err());
    config.target_utilization_ppm = 1_500_000;
    assert!(config.validate().is_err());
    assert_eq!(config.validate(), Err(String::from("target_utilization must be in (0.0, 1.0], got 1.5")));
    config.target_utilization_ppm = 0;
    assert_eq!(config.validate(), Err(String::from("target_utilization must be in (0.0, 1.0], got 0")));
    config.target_utilization_ppm = 2_000_050;
    assert_eq!(config.validate(), Err(String::from("target_utilization must be in (0.0, 1.0], got 2.00005")));
}

#[test]
fn test_eviction_watermark() {
    let config = TieredStorageConfig { hot_cache_size: 1000, target_utilization_ppm: 800_000, ..Default::default() };
    assert_eq!(config.eviction_watermark(), 800);
}

#[test]
fn test_estimated_capacity() {
    let config = TieredStorageConfig { hot_cache_size: 1_000_000, ..Default::default() };
    assert_eq!(config.estimated_hot_capacity(1000), 1000);
    assert_eq!(config.estimated_hot_capacity(0), 0);
}

#[test]
fn test_tier_stats_totals() {
    let stats = TierStats {
        hot_accounts: 100,
        hot_size_bytes: 1000,
        warm_accounts: 200,
        warm_size_bytes: 2000,
        cold_accounts: 300,
        cold_size_bytes: 3000,
        ..Default::default()
    };
    assert_eq!(stats.total_accounts(), 600);
    assert_eq!(stats.total_size_bytes(), 6000);
}

#[test]
fn test_eviction_policy_display() {
    assert_eq!(EvictionPolicy::LRU.to_string(), "LRU");
    assert_eq!(EvictionPolicy::LFU.to_string(), "LFU");
    assert_eq!(EvictionPolicy::ARC.to_string(), "ARC");
}

#[test]
fn test_account_tier_display() {
    assert_eq!(AccountTier::Hot.to_string(), "Hot (RAM)");
    assert_eq!(AccountTier::Warm.to_string(), "Warm (SSD)");
    assert_eq!(AccountTier::Cold.to_string(), "Cold (Archive)");
}

#[test]
fn test_preset_configs_are_valid() {
    assert!(TieredStorageConfig::for_32gb_validator().validate().is_ok());
    assert!(TieredStorageConfig::for_64gb_validator().validate().is_ok());
    assert!(TieredStorageConfig::for_testing().validate().is_ok());
}

// ── hot cache ──────────────────────────────────────────────────────────────

fn test_config(cache_size: u64) -> TieredStorageConfig {
    TieredStorageConfig {
        hot_cache_size: cache_size,
        eviction_batch_size: 10,
        target_utilization_ppm: 900_000,
        ..TieredStorageConfig::for_testing()
    }
}

#[test]
fn test_new_cache_is_empty() {
    let cache = AccountCache::new(TieredStorageConfig::for_testing());
    assert!(cache.is_empty());
    assert_eq!(cache.len(), 0);
    assert_eq!(cache.current_size_bytes(), 0);
}

#[test]
fn test_insert_and_get() {
    let mut cache = AccountCache::new(test_config(1_000_000));
    let pubkey = pk(1);
    let account = plain_account(100);
    cache.insert(pubkey, account.clone());
    assert_eq!(cache.len(), 1);
    assert!(cache.contains(&pubkey));
    let retrieved = cache.get(&pubkey).unwrap();
    assert_eq!(retrieved.data, account.data);
}

#[test]
fn test_get_miss_returns_none() {
    let mut cache = AccountCache::new(test_config(1_000_000));
    assert!(cache.get(&pk(1)).is_none());
    assert_eq!(cache.stats().total_misses, 1);
}

#[test]
fn test_insert_updates_existing() {
    let mut cache = AccountCache::new(test_config(1_000_000));
    let pubkey = pk(1);
    cache.insert(pubkey, plain_account(100));
    let size_after_first = cache.current_size_bytes();
    cache.insert(pubkey, plain_account(200));
    assert_eq!(cache.len(), 1);
    assert!(cache.current_size_bytes() > size_after_first);
    assert_eq!(cache.current_size_bytes(), 360);
    let retrieved = cache.get(&pubkey).unwrap();
    assert_eq!(retrieved.data.len(), 200);
}

#[test]
fn account_cache_test_remove() {
    let mut cache = AccountCache::new(test_config(1_000_000));
    let pubkey = pk(1);
    cache.insert(pubkey, plain_account(100));
    let removed = cache.remove(&pubkey);
    assert!(removed.is_some());
    assert!(cache.is_empty());
    assert!(!cache.contains(&pubkey));
}

#[test]
fn test_lru_eviction_order() {
    let mut cache = AccountCache::new(test_config(700));
    let (pk1, pk2, pk3, pk4) = (pk(1), pk(2), pk(3), pk(4));
    cache.insert(pk1, plain_account(10));
    cache.insert(pk2, plain_account(10));
    cache.insert(pk3, plain_account(10));
    cache.insert(pk4, plain_account(10));
    assert!(cache.needs_eviction());
    let evicted = cache.evict_to_warm();
    assert!(!evicted.is_empty());
    let evicted_pubkeys: Vec<Pubkey> = evicted.iter().map(|(p, _)| *p).collect();
    assert!(evicted_pubkeys.contains(&pk1));
    assert_eq!(evicted_pubkeys, vec![pk1]);
    assert_eq!(cache.current_size_bytes(), 510);
}

#[test]
fn test_get_promotes_to_head() {
    let mut cache = AccountCache::new(test_config(100_000));
    let (pk1, pk2, pk3) = (pk(1), pk(2), pk(3));
    cache.insert(pk1, plain_account(10));
    cache.insert(pk2, plain_account(10));
    cache.insert(pk3, plain_account(10));
    cache.get(&pk1);
    let tail_pubkey = cache.keys_by_recency()[0];
    assert_eq!(tail_pubkey, pk2);
    assert_eq!(cache.keys_by_recency(), vec![pk2, pk3, pk1]);
}

#[test]
fn test_cache_hit_rate() {
    let mut cache = AccountCache::new(test_config(1_000_000));
    let pk1 = pk(1);
    cache.insert(pk1, plain_account(100));
    cache.get(&pk1);
    cache.get(&pk1);
    cache.get(&pk1);
    cache.get(&pk(2));
    let stats = cache.stats();
    let rate = stats.total_hits as f64 / (stats.total_hits + stats.total_misses) as f64;
    assert!((rate - 0.75).abs() < 0.01);
}

#[test]
fn account_cache_test_utilization() {
    let mut cache = AccountCache::new(test_config(1000));
    assert_eq!(cache.current_size_bytes(), 0);
    cache.insert(pk(1), plain_account(10));
    let utilization = cache.current_size_bytes() as f64 / cache.max_size_bytes() as f64;
    assert!(utilization > 0.0);
}

#[test]
fn test_stats_tracking() {
    let mut cache = AccountCache::new(test_config(1_000_000));
    let pk1 = pk(1);
    cache.insert(pk1, plain_account(100));
    assert_eq!(cache.stats().hot_accounts, 1);
    assert!(cache.stats().hot_size_bytes > 0);
    cache.get(&pk1);
    assert_eq!(cache.stats().total_hits, 1);
    cache.get(&pk(2));
    assert_eq!(cache.stats().total_misses, 1);
}

#[test]
fn test_lfu_eviction() {
    let mut cache = AccountCache::new(TieredStorageConfig {
        hot_cache_size: 700,
        eviction_policy: EvictionPolicy::LFU,
        eviction_batch_size: 10,
        target_utilization_ppm: 900_000,
        ..TieredStorageConfig::for_testing()
    });
    let (pk1, pk2, pk3, pk4) = (pk(1), pk(2), pk(3), pk(4));
    cache.insert(pk1, plain_account(10));
    cache.insert(pk2, plain_account(10));
    cache.insert(pk3, plain_account(10));
    for _ in 0..10 {
        cache.get(&pk1);
    }
    for _ in 0..3 {
        cache.get(&pk3);
    }
    cache.insert(pk4, plain_account(10));
    if cache.needs_eviction() {
        let evicted = cache.evict_to_warm();
        if !evicted.is_empty() {
            let evicted_pubkeys: Vec<Pubkey> = evicted.iter().map(|(p, _)| *p).collect();
            assert!(evicted_pubkeys.contains(&pk2));
        }
    }
}

#[test]
fn lfu_picks_least_used_among_oldest_quarter() {
    // Eight entries of 170 bytes (1360 > 1260, the watermark); the oldest quarter is the
    // first two. The oldest was used three times, the second once, so the second goes.
    let mut cache = AccountCache::new(TieredStorageConfig {
        hot_cache_size: 1400,
        eviction_policy: EvictionPolicy::LFU,
        eviction_batch_size: 1,
        target_utilization_ppm: 900_000,
        ..TieredStorageConfig::for_testing()
    });
    cache.insert(pk(1), plain_account(10));
    cache.get(&pk(1));
    cache.get(&pk(1));
    for i in 2..=8 {
        cache.insert(pk(i), plain_account(10));
    }
    assert!(cache.needs_eviction());
    let evicted = cache.evict_to_warm();
    assert_eq!(evicted.len(), 1);
    assert_eq!(evicted[0].0, pk(2));
    assert_eq!(cache.keys_by_recency()[0], pk(1));
}

#[test]
fn test_many_insertions_and_evictions() {
    let mut cache = AccountCache::new(test_config(10_000));
    for i in 0..100 {
        cache.insert(pk(i), plain_account(50));
    }
    while cache.needs_eviction() {
        let evicted = cache.evict_to_warm();
        if evicted.is_empty() {
            break;
        }
    }
    assert!(!cache.needs_eviction() || cache.is_empty());
    assert!(cache.stats().hot_to_warm_demotions > 0);
}

// ── storage adapter ────────────────────────────────────────────────────────

fn test_adapter() -> TRv1StorageAdapter {
    TRv1StorageAdapter::new(TieredStorageConfig::for_testing(), StateRentConfig::for_testing())
}

#[test]
fn test_new_adapter() {
    let adapter = test_adapter();
    assert_eq!(adapter.hot_cache_len(), 0);
    assert_eq!(adapter.hot_cache().current_size_bytes(), 0);
}

#[test]
fn test_cache_hit_path() {
    let mut adapter = test_adapter();
    let pubkey = pk(1);
    let account = make_account(1000, 100, 5);
    adapter.hot_cache_insert(&pubkey, &account);
    assert_eq!(adapter.hot_cache_len(), 1);
    let loaded = adapter.hot_cache_get(&pubkey);
    assert!(loaded.is_some());
    assert_eq!(loaded.unwrap().data, account.data);
    assert_eq!(adapter.stats().total_hits, 1);
}

#[test]
fn test_cache_miss_path() {
    let mut adapter = test_adapter();
    assert!(adapter.hot_cache_get(&pk(1)).is_none());
    assert_eq!(adapter.stats().total_misses, 1);
}

#[test]
fn test_cache_eviction() {
    let config = TieredStorageConfig {
        hot_cache_size: 700,
        eviction_batch_size: 10,
        target_utilization_ppm: 900_000,
        ..TieredStorageConfig::for_testing()
    };
    let mut adapter = TRv1StorageAdapter::new(config, StateRentConfig::for_testing());
    for i in 0..5 {
        adapter.hot_cache_insert(&pk(i), &make_account(1000, 50, 9));
    }
    let evicted = adapter.maybe_evict();
    assert!(!evicted.is_empty(), "Should have evicted some accounts");
    assert!(adapter.stats().hot_to_warm_demotions > 0);
}

#[test]
fn test_cache_remove() {
    let mut adapter = test_adapter();
    let pubkey = pk(1);
    adapter.hot_cache_insert(&pubkey, &make_account(1000, 100, 5));
    assert_eq!(adapter.hot_cache_len(), 1);
    assert!(adapter.hot_cache_remove(&pubkey).is_some());
    assert_eq!(adapter.hot_cache_len(), 0);
    assert!(adapter.hot_cache_get(&pubkey).is_none());
}

#[test]
fn test_archive_account_to_cold() {
    let mut adapter = test_adapter();
    let pubkey = pk(1);
    let account = make_account(10_000, 256, 5);
    adapter.hot_cache_insert(&pubkey, &account);
    assert_eq!(adapter.hot_cache_len(), 1);
    let current_slot = 2 * ESTIMATED_SLOTS_PER_DAY;
    let prepared = adapter.prepare_archive(&pubkey, &account, 0, current_slot, 1, 0);
    assert!(prepared.is_some(), "Account should have been archived");
    let (archived, _bytes) = prepared.unwrap();
    adapter.commit_archive(archived);
    assert_eq!(adapter.hot_cache_len(), 0);
    assert!(adapter.hot_cache_get(&pubkey).is_none());
    assert!(adapter.is_archived(&pubkey));
    assert_eq!(adapter.stats().cold_accounts, 1);
}

#[test]
fn test_archive_refuses_active_account() {
    let adapter = test_adapter();
    let account = make_account(10_000, 256, 5);
    let prepared = adapter.prepare_archive(&pk(1), &account, 50, 100, 1, 0);
    assert!(prepared.is_none(), "Recently active account should not be archived");
}

#[test]
fn test_stats_accuracy() {
    let mut adapter = test_adapter();
    let (pk1, pk2) = (pk(1), pk(2));
    let account = make_account(1000, 100, 5);
    adapter.hot_cache_insert(&pk1, &account);
    adapter.hot_cache_insert(&pk2, &account);
    adapter.hot_cache_get(&pk1);
    adapter.hot_cache_get(&pk2);
    adapter.hot_cache_get(&pk1);
    adapter.hot_cache_get(&pk(3));
    adapter.hot_cache_get(&pk(4));
    let stats = adapter.stats();
    assert_eq!(stats.total_hits, 3);
    assert_eq!(stats.total_misses, 2);
    assert_eq!(stats.hot_accounts, 2);
    let rate = stats.total_hits as f64 / (stats.total_hits + stats.total_misses) as f64;
    assert!((rate - 0.60).abs() < 0.01);
}

#[test]
fn test_maintenance_tick() {
    let mut adapter = test_adapter();
    adapter.hot_cache_insert(&pk(1), &make_account(1000, 100, 5));
    adapter.maintenance_tick(1000, 1);
    assert_eq!(adapter.stats().total_hits, 0);
}

#[test]
fn maintenance_interval_has_a_floor() {
    assert_eq!(effective_interval_ms(100), 5_000);
    assert_eq!(effective_interval_ms(4_999), 5_000);
    assert_eq!(effective_interval_ms(5_000), 5_000);
    assert_eq!(effective_interval_ms(60_000), 60_000);
}

#[test]
fn maintenance_slot_estimate_advances_per_tick() {
    // Every 60 s tick is 150 slots of 400 ms.
    assert_eq!(estimated_slot_and_epoch(0, 60_000), (0, 0));
    assert_eq!(estimated_slot_and_epoch(10, 60_000), (1_500, 0));
    assert_eq!(estimated_slot_and_epoch(2_880, 60_000), (432_000, 1));
    assert_eq!(estimated_slot_and_epoch(u64::MAX, 60_000), (u64::MAX, u64::MAX / 432_000));
}

#[test]
fn test_cold_storage_path_layout() {
    let mut bytes = [7u8; 32];
    bytes[0] = 0xab;
    bytes[1] = 0x0c;
    let key = Pubkey { bytes };
    let path = cold_storage_path_for_account(&key, "/tmp/cold");
    let b58 = format!("{}", solana_pubkey::Pubkey::new_from_array(bytes));
    assert_eq!(path, format!("/tmp/cold/ab/0c/{}.bin", b58));
    assert_eq!(cold_storage_path_for_account(&key, "/tmp/cold/"), path);
    assert_eq!(cold_storage_path_for_account(&key, ""), format!("ab/0c/{}.bin", b58));
    assert_ne!(cold_storage_path_for_account(&pk(1), "/tmp/cold"), cold_storage_path_for_account(&pk(2), "/tmp/cold"));
}

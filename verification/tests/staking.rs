//! Staking, slashing, command-line value and block-production scenarios.

use trv1::bft::types::ProposedBlock;
use trv1::cli::governance::{
    is_valid_proposal_status, is_valid_proposal_type, is_valid_vote_choice, CliProposal, ProposalType, VoteChoice,
};
use trv1::cli::passive_stake::{is_valid_lock_period, LockPeriod};
use trv1::primitives::{Hash32, Pubkey};
use trv1::producer::{collect_transactions, take_batch, validate_block, BlockProducer, BlockProducerConfig, BlockProducerError};
use trv1::staking::passive::{
    calculate_rewards, early_unlock_penalty_bps, reward_rate_bps, PassiveStakeAccount, UnlockOutcome,
    PERMANENT_LOCK_DAYS,
};
use trv1::staking::slashing::{slash_amount, SlashOffense, SlashingConfig, ValidatorJailStatus, OFFLINE_THRESHOLD};

// ── passive stake ──────────────────────────────────────────────────────────

#[test]
fn tier_rates_and_penalties() {
    assert_eq!(reward_rate_bps(0), Some(500));
    assert_eq!(reward_rate_bps(30), Some(1_000));
    assert_eq!(reward_rate_bps(360), Some(5_000));
    assert_eq!(reward_rate_bps(PERMANENT_LOCK_DAYS), Some(12_000));
    assert_eq!(reward_rate_bps(31), None);
    assert_eq!(early_unlock_penalty_bps(0), Some(0));
    assert_eq!(early_unlock_penalty_bps(180), Some(750));
    assert_eq!(early_unlock_penalty_bps(360), Some(1_250));
    assert_eq!(early_unlock_penalty_bps(PERMANENT_LOCK_DAYS), None);
}

#[test]
fn reward_formula_exact_values() {
    // 1e12 * 10000 * 5000 / (1e8 * 365) = 1_369_863_013 per epoch.
    assert_eq!(calculate_rewards(1_000_000_000_000, 10_000, 5_000, 1), Some(1_369_863_013));
    assert_eq!(calculate_rewards(1_000_000_000_000, 10_000, 5_000, 3), Some(4_109_589_039));
    assert_eq!(calculate_rewards(1_000, 1, 1, 1), Some(0));
    // The product overflows 128 bits.
    assert_eq!(calculate_rewards(u64::MAX, u64::MAX, u64::MAX, 1), None);
    // The total is capped at u64::MAX.
    assert_eq!(calculate_rewards(u64::MAX, 10_000, 12_000, u64::MAX), Some(u64::MAX));
}

#[test]
fn single_epoch_reward_stays_below_principal() {
    for amount in [1u64, 365, 1_000_000, u64::MAX / 2 - 1] {
        let r = calculate_rewards(amount, 10_000, 12_000, 1).unwrap();
        assert!(r <= amount);
    }
}

#[test]
fn stake_lifecycle_with_timed_lock() {
    let mut acct = PassiveStakeAccount::default();
    assert!(acct.initialize(30, 1_000_000, 1_700_000_000));
    assert!(!acct.initialize(90, 5, 0));
    assert_eq!(acct.lock_end, 1_700_000_000 + 30 * 86_400);
    assert!(acct.lock_end > acct.lock_start);
    assert_eq!(acct.accrue_rewards(0, 10_000), None);
    let before = acct.unclaimed_rewards;
    let got = acct.accrue_rewards(10, 10_000);
    assert!(got.is_some());
    assert!(acct.unclaimed_rewards >= before);
    assert_eq!(acct.last_reward_epoch, 10);
    assert_eq!(acct.accrue_rewards(10, 10_000), None);
    assert_eq!(acct.try_unlock(1_700_000_000), UnlockOutcome::LockNotExpired);
    assert_eq!(acct.try_unlock(1_700_000_000 + 30 * 86_400), UnlockOutcome::Unlocked);
    assert!(!acct.is_initialized);
    assert_eq!(acct.try_unlock(0), UnlockOutcome::NotInitialized);
}

#[test]
fn permanent_lock_never_unlocks() {
    let mut acct = PassiveStakeAccount::default();
    acct.initialize(PERMANENT_LOCK_DAYS, 1_000, 1_700_000_000);
    assert!(acct.is_permanent);
    assert_eq!(acct.lock_end, 0);
    assert_eq!(acct.try_unlock(i64::MAX), UnlockOutcome::EarlyUnlockNotAllowed);
    assert_eq!(acct.try_early_unlock(), None);
    assert!(acct.is_initialized);
}

#[test]
fn early_unlock_pays_the_tier_penalty() {
    let mut acct = PassiveStakeAccount::default();
    acct.initialize(360, 1_000_000, 0);
    assert_eq!(acct.try_early_unlock(), Some((875_000, 125_000)));
    assert!(!acct.is_initialized);
    let mut flexible = PassiveStakeAccount::default();
    flexible.initialize(0, 10, 0);
    assert_eq!(flexible.try_early_unlock(), Some((10, 0)));
    let mut flexible2 = PassiveStakeAccount::default();
    flexible2.initialize(0, 10, 0);
    assert_eq!(flexible2.try_unlock(0), UnlockOutcome::Unlocked);
}

// ── slashing ───────────────────────────────────────────────────────────────

#[test]
fn slashing_config_defaults() {
    let c = SlashingConfig::default();
    assert_eq!(c.double_sign_penalty_bps, 500);
    assert_eq!(c.invalid_block_penalty_bps, 1000);
    assert_eq!(c.repeat_offense_penalty_bps, 2500);
    assert_eq!(c.max_offenses, 3);
}

#[test]
fn three_strikes_and_banned() {
    let config = SlashingConfig::default();
    let mut s = ValidatorJailStatus::default();
    assert_eq!(s.slash(SlashOffense::DoubleSigning, 1_000_000, 10, &config), Some(50_000));
    assert!(s.is_jailed);
    assert_eq!(s.jail_until_epoch, 14);
    s.unjail(13);
    assert!(s.is_jailed);
    s.unjail(14);
    assert!(!s.is_jailed);
    assert_eq!(s.slash(SlashOffense::InvalidBlock, 1_000_000, 20, &config), Some(100_000));
    assert_eq!(s.jail_until_epoch, 35);
    assert_eq!(s.slash(SlashOffense::DoubleSigning, 1_000_000, 40, &config), Some(250_000));
    assert!(s.permanently_banned);
    assert!(s.is_jailed);
    assert_eq!(s.offense_count, 3);
    assert_eq!(s.slash(SlashOffense::DoubleSigning, 1_000_000, 50, &config), None);
    s.unjail(u64::MAX);
    assert!(s.is_jailed && s.permanently_banned);
}

#[test]
fn slash_amount_rounds_down_and_saturates() {
    assert_eq!(slash_amount(999, 500), 49);
    assert_eq!(slash_amount(u64::MAX, 2), u64::MAX);
    assert!(slash_amount(u64::MAX / 10_000, 10_000) <= u64::MAX / 10_000);
}

#[test]
fn offline_validators_are_jailed() {
    let mut s = ValidatorJailStatus::default();
    s.check_offline(100, 100 + OFFLINE_THRESHOLD, 3);
    assert!(!s.is_jailed);
    s.check_offline(100, 101 + OFFLINE_THRESHOLD, 3);
    assert!(s.is_jailed);
    assert_eq!(s.jail_until_epoch, 7);
    s.check_offline(0, u64::MAX, 9);
    assert_eq!(s.jail_until_epoch, 7);
}

// ── command-line values ────────────────────────────────────────────────────

#[test]
fn proposal_types_parse_and_print() {
    for (s, t) in [
        ("parameter-change", ProposalType::ParameterChange),
        ("treasury-spend", ProposalType::TreasurySpend),
        ("emergency-unlock", ProposalType::EmergencyUnlock),
        ("text", ProposalType::Text),
    ] {
        assert_eq!(ProposalType::from_str_value(s), Ok(t));
        assert_eq!(t.to_string(), s);
    }
    let err = ProposalType::from_str_value("bogus").unwrap_err();
    assert_eq!(err, "Invalid proposal type 'bogus'. Valid: parameter-change, treasury-spend, emergency-unlock, text");
    assert!(is_valid_proposal_type(String::from("text")).is_ok());
    assert!(is_valid_proposal_type(String::from("Text")).is_err());
}

#[test]
fn vote_choices_parse_and_print() {
    assert_eq!(VoteChoice::from_str_value("for"), Ok(VoteChoice::For));
    assert_eq!(VoteChoice::from_str_value("against"), Ok(VoteChoice::Against));
    assert_eq!(VoteChoice::from_str_value("abstain"), Ok(VoteChoice::Abstain));
    assert_eq!(VoteChoice::Against.to_string(), "against");
    assert_eq!(VoteChoice::from_str_value("yes").unwrap_err(), "Invalid vote 'yes'. Valid: for, against, abstain");
    assert!(is_valid_vote_choice(String::from("abstain")).is_ok());
    assert!(is_valid_vote_choice(String::new()).is_err());
}

#[test]
fn proposal_statuses() {
    for s in ["active", "passed", "all"] {
        assert!(is_valid_proposal_status(String::from(s)).is_ok());
    }
    assert_eq!(
        is_valid_proposal_status(String::from("done")),
        Err(String::from("Invalid status 'done'. Valid: active, passed, all"))
    );
}

#[test]
fn lock_periods_parse_and_print() {
    assert_eq!(LockPeriod::from_str_value("0"), Ok(LockPeriod::Flexible));
    assert_eq!(LockPeriod::from_str_value("30"), Ok(LockPeriod::Days30));
    assert_eq!(LockPeriod::from_str_value("permanent"), Ok(LockPeriod::Permanent));
    assert_eq!(LockPeriod::Flexible.to_string(), "0 (flexible)");
    assert_eq!(LockPeriod::Days180.to_string(), "180 days");
    assert_eq!(
        LockPeriod::from_str_value("45").unwrap_err(),
        "Invalid lock period '45'. Valid values: 0, 30, 90, 180, 360, permanent"
    );
    assert!(is_valid_lock_period(String::from("360")).is_ok());
    assert!(is_valid_lock_period(String::from("forever")).is_err());
}

// ── block production ───────────────────────────────────────────────────────

#[test]
fn producer_config_defaults() {
    let c = BlockProducerConfig::default();
    assert_eq!(c.max_transactions_per_block, 2048);
    assert_eq!(c.max_compute_units_per_block, 48_000_000);
}

#[test]
fn batches_are_taken_up_to_the_limit() {
    let mut collected: Vec<Vec<u8>> = Vec::new();
    assert!(take_batch(&mut collected, vec![vec![1], vec![2]], 5));
    assert_eq!(collected.len(), 2);
    assert!(!take_batch(&mut collected, vec![vec![3], vec![4], vec![5], vec![6]], 5));
    assert_eq!(collected, vec![vec![1], vec![2], vec![3], vec![4], vec![5]]);
    let mut exact: Vec<Vec<u8>> = Vec::new();
    assert!(!take_batch(&mut exact, vec![vec![1], vec![2]], 2));
}

#[test]
fn oversized_blocks_are_rejected() {
    let config = BlockProducerConfig { max_transactions_per_block: 2, max_compute_units_per_block: 1 };
    let mut block = ProposedBlock {
        parent_hash: Hash32::default(),
        height: 1,
        timestamp: 0,
        transactions: vec![vec![], vec![]],
        state_root: Hash32::default(),
        proposer: Pubkey::default(),
    };
    let parent = Hash32::default();
    assert!(validate_block(&config, &block, &parent, 1).is_ok());
    block.transactions.push(vec![]);
    assert!(matches!(
        validate_block(&config, &block, &parent, 1),
        Err(BlockProducerError::TooManyTransactions { count: 3, max: 2 })
    ));
}

#[test]
fn pending_batches_are_drained_up_to_the_limit() {
    let (tx, rx) = crossbeam_channel::unbounded::<Vec<Vec<u8>>>();
    tx.send(vec![vec![1], vec![2]]).unwrap();
    tx.send(vec![]).unwrap();
    tx.send(vec![vec![3], vec![4], vec![5]]).unwrap();
    tx.send(vec![vec![6]]).unwrap();
    let got = collect_transactions(&rx, 4);
    assert_eq!(got, vec![vec![1], vec![2], vec![3], vec![4]]);
    // The cut batch is gone; the next one waits for the next block.
    assert_eq!(collect_transactions(&rx, 4), vec![vec![6]]);
    assert!(collect_transactions(&rx, 4).is_empty());
}

#[test]
fn producer_builds_block_from_queue() {
    let (tx, rx) = crossbeam_channel::unbounded::<Vec<Vec<u8>>>();
    tx.send(vec![vec![7, 7], vec![8]]).unwrap();
    let config = BlockProducerConfig { max_transactions_per_block: 10, max_compute_units_per_block: 1 };
    let producer = BlockProducer::new(rx, config);
    let parent = Hash32 { bytes: [3u8; 32] };
    let root = Hash32 { bytes: [4u8; 32] };
    let proposer = Pubkey { bytes: [5u8; 32] };
    let block = producer.create_block(9, parent, proposer, root, 1_700_000_000_000).unwrap();
    assert_eq!(block.height, 9);
    assert_eq!(block.parent_hash, parent);
    assert_eq!(block.proposer, proposer);
    assert_eq!(block.state_root, root);
    assert_eq!(block.timestamp, 1_700_000_000_000);
    assert_eq!(block.transactions, vec![vec![7, 7], vec![8]]);
    assert!(producer.validate_block(&block, &parent, 9).is_ok());
    let empty = producer.create_block(10, parent, proposer, root, 0).unwrap();
    assert!(empty.transactions.is_empty());
}

#[test]
fn blocks_on_the_wrong_parent_or_height_are_rejected() {
    let config = BlockProducerConfig { max_transactions_per_block: 2, max_compute_units_per_block: 1 };
    let expected = Hash32 { bytes: [1u8; 32] };
    let other = Hash32 { bytes: [2u8; 32] };
    let block = ProposedBlock {
        parent_hash: other,
        height: 5,
        timestamp: 0,
        transactions: vec![vec![]],
        state_root: Hash32::default(),
        proposer: Pubkey::default(),
    };
    match validate_block(&config, &block, &expected, 4) {
        Err(BlockProducerError::ParentHashMismatch { expected: e, got }) => {
            assert_eq!(e, expected);
            assert_eq!(got, other);
        },
        r => panic!("unexpected {r:?}"),
    }
    let on_parent = ProposedBlock { parent_hash: expected, ..block };
    assert!(matches!(
        validate_block(&config, &on_parent, &expected, 4),
        Err(BlockProducerError::HeightMismatch { expected: 4, got: 5 })
    ));
    assert!(validate_block(&config, &on_parent, &expected, 5).is_ok());
}

#[test]
fn list_titles_are_cut_between_characters() {
    let proposal = |title: &str| CliProposal {
        id: 1,
        proposal_type: String::from("text"),
        title: String::from(title),
        description: String::new(),
        proposer: String::new(),
        status: String::from("active"),
        votes_for: 0,
        votes_against: 0,
        votes_abstain: 0,
        created_at: String::new(),
        voting_ends: String::new(),
    };
    assert_eq!(proposal("short").list_title(), "short");
    let exact = "a".repeat(38);
    assert_eq!(proposal(&exact).list_title(), exact);
    let long = "b".repeat(40);
    assert_eq!(proposal(&long).list_title(), format!("{}...", "b".repeat(37)));
    let wide = "é".repeat(40);
    assert_eq!(proposal(&wide).list_title(), format!("{}...", "é".repeat(18)));
    let mixed = format!("a{}", "é".repeat(19));
    assert_eq!(mixed.len(), 39);
    assert_eq!(proposal(&mixed).list_title(), format!("a{}...", "é".repeat(18)));
    let exact_wide = "é".repeat(19);
    assert_eq!(proposal(&exact_wide).list_title(), exact_wide);
    let boundary = format!("{}€{}", "c".repeat(36), "d".repeat(3));
    assert_eq!(proposal(&boundary).list_title(), format!("{}...", "c".repeat(36)));
    let four = format!("{}😀", "e".repeat(35));
    assert_eq!(proposal(&four).list_title(), format!("{}...", "e".repeat(35)));
}

//! BFT consensus scenarios: validator sets, proposer rotation, block hashing, the round state
//! machine, double-sign evidence, timeouts and configuration.

use trv1::bft::config::{BftConfig, ConfigError};
use trv1::bft::engine::ConsensusEngine;
use trv1::bft::evidence::{EvidenceCollector, EvidenceKind};
use trv1::bft::proposer::{is_proposer, proposer_for_round};
use trv1::bft::step::ConsensusStep;
use trv1::bft::timeout::TimeoutScheduler;
use trv1::bft::types::{ConsensusMessage, ConsensusState, ProposedBlock};
use trv1::bft::validator_set::ValidatorSet;
use trv1::primitives::{Hash32, Pubkey, Signature};

/// A distinct key for each `n`, ordered by `n` (big-endian prefix).
fn pk(n: u64) -> Pubkey {
    let mut bytes = [0u8; 32];
    bytes[..8].copy_from_slice(&n.to_be_bytes());
    bytes[8..16].copy_from_slice(&n.wrapping_mul(0x9E37_79B9_7F4A_7C15).to_le_bytes());
    Pubkey { bytes }
}

/// A distinct hash for each `n`.
fn hash(n: u64) -> Hash32 {
    let mut bytes = [0u8; 32];
    bytes[24..].copy_from_slice(&n.to_be_bytes());
    bytes[0] = 0xAB;
    Hash32 { bytes }
}

fn make_pubkeys(n: usize) -> Vec<Pubkey> {
    (1..=n as u64).map(pk).collect()
}

fn make_validator_set(n: usize, stake: u64) -> (Vec<Pubkey>, ValidatorSet) {
    let pks = make_pubkeys(n);
    let vs = ValidatorSet::new(pks.iter().map(|p| (*p, stake)).collect());
    (pks, vs)
}

fn make_block(height: u64, proposer: Pubkey, root: u64) -> ProposedBlock {
    ProposedBlock {
        parent_hash: Hash32::default(),
        height,
        timestamp: 1000,
        transactions: vec![],
        state_root: hash(root),
        proposer,
    }
}

fn make_proposal(height: u64, round: u32, block: &ProposedBlock, proposer: Pubkey, valid_round: Option<u32>) -> ConsensusMessage {
    ConsensusMessage::Proposal {
        height,
        round,
        block: block.clone(),
        proposer,
        signature: Signature::default(),
        valid_round,
    }
}

fn make_prevote_msg(height: u64, round: u32, block_hash: Option<Hash32>, voter: Pubkey) -> ConsensusMessage {
    ConsensusMessage::Prevote { height, round, block_hash, voter, signature: Signature::default() }
}

fn make_precommit_msg(height: u64, round: u32, block_hash: Option<Hash32>, voter: Pubkey) -> ConsensusMessage {
    ConsensusMessage::Precommit { height, round, block_hash, voter, signature: Signature::default() }
}

// ── validator set ───────────────────────────────────────────────────────────

#[test]
fn test_new_validator_set_sorted_by_stake_desc() {
    let pks = make_pubkeys(3);
    let vs = ValidatorSet::new(vec![(pks[0], 100), (pks[1], 300), (pks[2], 200)]);
    assert_eq!(vs.len(), 3);
    assert_eq!(vs.get(0).unwrap().stake, 300);
    assert_eq!(vs.get(1).unwrap().stake, 200);
    assert_eq!(vs.get(2).unwrap().stake, 100);
}

#[test]
fn test_zero_stake_filtered() {
    let pks = make_pubkeys(2);
    let vs = ValidatorSet::new(vec![(pks[0], 0), (pks[1], 100)]);
    assert_eq!(vs.len(), 1);
    assert_eq!(vs.total_stake(), 100);
}

#[test]
fn test_total_stake() {
    let pks = make_pubkeys(3);
    let vs = ValidatorSet::new(vec![(pks[0], 100), (pks[1], 200), (pks[2], 300)]);
    assert_eq!(vs.total_stake(), 600);
}

#[test]
fn test_stake_of() {
    let pks = make_pubkeys(2);
    let vs = ValidatorSet::new(vec![(pks[0], 100), (pks[1], 200)]);
    assert_eq!(vs.stake_of(&pks[0]), 100);
    assert_eq!(vs.stake_of(&pks[1]), 200);
    assert_eq!(vs.stake_of(&pk(99)), 0);
}

#[test]
fn test_contains() {
    let pks = make_pubkeys(2);
    let vs = ValidatorSet::new(vec![(pks[0], 100), (pks[1], 200)]);
    assert!(vs.contains(&pks[0]));
    assert!(!vs.contains(&pk(99)));
}

#[test]
fn test_quorum_stake() {
    let pks = make_pubkeys(3);
    let vs = ValidatorSet::new(vec![(pks[0], 100), (pks[1], 100), (pks[2], 100)]);
    // total = 300, ceil(300 * 0.667) = ceil(200.1) = 201
    let q = vs.quorum_stake(667_000);
    assert!(q > 200);
    assert!(q <= 201);
    assert_eq!(q, 201);
}

#[test]
fn test_upsert_add() {
    let pks = make_pubkeys(3);
    let mut vs = ValidatorSet::new(vec![(pks[0], 100)]);
    vs.upsert(pks[1], 200);
    assert_eq!(vs.len(), 2);
    assert_eq!(vs.total_stake(), 300);
    assert_eq!(vs.get(0).unwrap().pubkey, pks[1]);
}

#[test]
fn test_upsert_update() {
    let pks = make_pubkeys(2);
    let mut vs = ValidatorSet::new(vec![(pks[0], 100), (pks[1], 200)]);
    vs.upsert(pks[0], 500);
    assert_eq!(vs.len(), 2);
    assert_eq!(vs.total_stake(), 700);
    assert_eq!(vs.get(0).unwrap().pubkey, pks[0]);
}

#[test]
fn validator_set_test_remove() {
    let pks = make_pubkeys(2);
    let mut vs = ValidatorSet::new(vec![(pks[0], 100), (pks[1], 200)]);
    vs.remove(&pks[0]);
    assert_eq!(vs.len(), 1);
    assert!(!vs.contains(&pks[0]));
    assert_eq!(vs.total_stake(), 200);
}

#[test]
fn test_empty_set() {
    let vs = ValidatorSet::new(vec![]);
    assert!(vs.is_empty());
    assert_eq!(vs.total_stake(), 0);
    assert_eq!(vs.len(), 0);
}

#[test]
fn test_deterministic_ordering_with_equal_stake() {
    let mut pks = make_pubkeys(3);
    let vs1 = ValidatorSet::new(vec![(pks[0], 100), (pks[1], 100), (pks[2], 100)]);
    pks.reverse();
    let vs2 = ValidatorSet::new(vec![(pks[0], 100), (pks[1], 100), (pks[2], 100)]);
    assert_eq!(vs1.pubkeys(), vs2.pubkeys());
}

#[test]
fn test_iter() {
    let pks = make_pubkeys(2);
    let vs = ValidatorSet::new(vec![(pks[0], 100), (pks[1], 200)]);
    let collected: Vec<_> = vs.iter().iter().collect();
    assert_eq!(collected.len(), 2);
}

#[test]
fn equal_stakes_are_ordered_by_key() {
    let pks = make_pubkeys(3);
    let vs = ValidatorSet::new(vec![(pks[2], 100), (pks[0], 100), (pks[1], 100)]);
    assert_eq!(vs.pubkeys(), vec![pks[0], pks[1], pks[2]]);
}

#[test]
fn quorum_of_empty_set_is_one() {
    let vs = ValidatorSet::new(vec![]);
    assert_eq!(vs.quorum_stake(667_000), 1);
}

// ── proposer ────────────────────────────────────────────────────────────────

#[test]
fn test_proposer_deterministic() {
    let pks = make_pubkeys(4);
    let vs = ValidatorSet::new(vec![(pks[0], 100), (pks[1], 200), (pks[2], 300), (pks[3], 400)]);
    let p1 = proposer_for_round(&vs, 10, 0);
    let p2 = proposer_for_round(&vs, 10, 0);
    assert_eq!(p1, p2);
}

#[test]
fn test_proposer_rotates_across_rounds() {
    let pks = make_pubkeys(4);
    let vs = ValidatorSet::new(vec![(pks[0], 1), (pks[1], 1), (pks[2], 1), (pks[3], 1)]);
    let mut proposers = Vec::new();
    for round in 0..4 {
        proposers.push(proposer_for_round(&vs, 0, round).unwrap());
    }
    proposers.sort();
    proposers.dedup();
    assert_eq!(proposers.len(), 4);
}

#[test]
fn test_proposer_rotates_across_heights() {
    let pks = make_pubkeys(4);
    let vs = ValidatorSet::new(vec![(pks[0], 1), (pks[1], 1), (pks[2], 1), (pks[3], 1)]);
    let mut proposers = Vec::new();
    for height in 0..4 {
        proposers.push(proposer_for_round(&vs, height, 0).unwrap());
    }
    proposers.sort();
    proposers.dedup();
    assert_eq!(proposers.len(), 4);
}

#[test]
fn test_weighted_selection_favors_higher_stake() {
    let pks = make_pubkeys(2);
    let vs = ValidatorSet::new(vec![(pks[0], 900), (pks[1], 100)]);
    let mut high_count = 0;
    let high_stake_pk = vs.get(0).unwrap().pubkey;
    for h in 0..1000u64 {
        if proposer_for_round(&vs, h, 0).unwrap() == high_stake_pk {
            high_count += 1;
        }
    }
    assert!(high_count > 850 && high_count < 950, "Expected ~900, got {high_count}");
}

#[test]
fn test_single_validator() {
    let p = pk(7);
    let vs = ValidatorSet::new(vec![(p, 100)]);
    for h in 0..10 {
        for r in 0..5 {
            assert_eq!(proposer_for_round(&vs, h, r), Some(p));
        }
    }
}

#[test]
fn test_empty_validator_set() {
    let vs = ValidatorSet::new(vec![]);
    assert_eq!(proposer_for_round(&vs, 0, 0), None);
}

#[test]
fn proposer_test_is_proposer() {
    let pks = make_pubkeys(2);
    let vs = ValidatorSet::new(vec![(pks[0], 500), (pks[1], 500)]);
    let proposer = proposer_for_round(&vs, 0, 0).unwrap();
    assert!(is_proposer(&vs, &proposer, 0, 0));
    let other = if proposer == pks[0] { &pks[1] } else { &pks[0] };
    assert!(!is_proposer(&vs, other, 0, 0));
}

#[test]
fn test_proposer_consistency_across_validator_set_creation_order() {
    let pks = make_pubkeys(3);
    let vs1 = ValidatorSet::new(vec![(pks[0], 100), (pks[1], 200), (pks[2], 300)]);
    let vs2 = ValidatorSet::new(vec![(pks[2], 300), (pks[0], 100), (pks[1], 200)]);
    for h in 0..20 {
        for r in 0..5 {
            assert_eq!(proposer_for_round(&vs1, h, r), proposer_for_round(&vs2, h, r), "Mismatch at height={h}, round={r}");
        }
    }
}

#[test]
fn proposer_covers_drawn_stake_position() {
    // Canonical order: 400, 300, 200, 100 (cumulative 400, 700, 900, 1000).
    let pks = make_pubkeys(4);
    let vs = ValidatorSet::new(vec![(pks[0], 100), (pks[1], 200), (pks[2], 300), (pks[3], 400)]);
    assert_eq!(proposer_for_round(&vs, 399, 0), Some(pks[3]));
    assert_eq!(proposer_for_round(&vs, 400, 0), Some(pks[2]));
    assert_eq!(proposer_for_round(&vs, 899, 1), Some(pks[0]));
    assert_eq!(proposer_for_round(&vs, 1000, 0), Some(pks[3]));
}

// ── types ───────────────────────────────────────────────────────────────────

#[test]
fn test_proposed_block_hash_deterministic() {
    let block = ProposedBlock {
        parent_hash: Hash32::default(),
        height: 1,
        timestamp: 1000,
        transactions: vec![],
        state_root: Hash32::default(),
        proposer: Pubkey::default(),
    };
    let h1 = block.hash();
    let h2 = block.hash();
    assert_eq!(h1, h2);
}

#[test]
fn test_proposed_block_hash_changes_with_height() {
    let block1 = ProposedBlock {
        parent_hash: Hash32::default(),
        height: 1,
        timestamp: 1000,
        transactions: vec![],
        state_root: Hash32::default(),
        proposer: Pubkey::default(),
    };
    let block2 = ProposedBlock { height: 2, ..block1.clone() };
    assert_ne!(block1.hash(), block2.hash());
}

#[test]
fn block_hash_is_sha256_of_its_header_fields() {
    let block = ProposedBlock {
        parent_hash: hash(1),
        height: 7,
        timestamp: -5,
        transactions: vec![vec![1, 2, 3], vec![]],
        state_root: hash(2),
        proposer: pk(3),
    };
    let mut preimage = Vec::new();
    preimage.extend_from_slice(&hash(1).bytes);
    preimage.extend_from_slice(&7u64.to_le_bytes());
    preimage.extend_from_slice(&(-5i64).to_le_bytes());
    preimage.extend_from_slice(&hash(2).bytes);
    preimage.extend_from_slice(&pk(3).bytes);
    let expected = solana_sha256_hasher::hash(&preimage).to_bytes();
    assert_eq!(block.hash().bytes, expected);
}

#[test]
fn test_consensus_state_new() {
    let state = ConsensusState::new(42);
    assert_eq!(state.height, 42);
    assert_eq!(state.round, 0);
    assert_eq!(state.step, ConsensusStep::NewRound);
    assert!(state.locked_value.is_none());
    assert!(state.locked_round.is_none());
    assert!(state.prevotes.is_empty());
    assert!(state.precommits.is_empty());
}

#[test]
fn test_consensus_state_advance_round_preserves_lock() {
    let mut state = ConsensusState::new(1);
    state.locked_value = Some(Hash32::default());
    state.locked_round = Some(0);
    state.prevotes.push((Pubkey::default(), Some(Hash32::default())));
    state.advance_round(1);
    assert_eq!(state.round, 1);
    assert_eq!(state.step, ConsensusStep::NewRound);
    assert!(state.locked_value.is_some());
    assert_eq!(state.locked_round, Some(0));
    assert!(state.prevotes.is_empty());
    assert!(state.precommits.is_empty());
}

#[test]
fn test_consensus_message_accessors() {
    let msg = ConsensusMessage::Prevote {
        height: 10,
        round: 2,
        block_hash: Some(Hash32::default()),
        voter: Pubkey::default(),
        signature: Signature::default(),
    };
    assert_eq!(msg.height(), 10);
    assert_eq!(msg.round(), 2);
    assert_eq!(*msg.sender(), Pubkey::default());
}

#[test]
fn test_consensus_step_display() {
    assert_eq!(ConsensusStep::NewRound.name(), "NewRound");
    assert_eq!(ConsensusStep::Propose.name(), "Propose");
    assert_eq!(ConsensusStep::Prevote.name(), "Prevote");
    assert_eq!(ConsensusStep::Precommit.name(), "Precommit");
    assert_eq!(ConsensusStep::Commit.name(), "Commit");
}

// ── engine ──────────────────────────────────────────────────────────────────

#[test]
fn test_full_round_happy_path() {
    let (pks, vs) = make_validator_set(4, 100);
    let config = BftConfig::default();
    let our_pk = pks[0];
    let mut engine = ConsensusEngine::new(config, our_pk, vs.clone());
    let _output = engine.start_new_height(1);
    assert_eq!(engine.height(), 1);
    assert_eq!(engine.round(), 0);

    let proposer_pk = proposer_for_round(&vs, 1, 0).unwrap();
    let block = make_block(1, proposer_pk, 1);
    let block_hash = block.hash();
    let output = engine.on_proposal(make_proposal(1, 0, &block, proposer_pk, None));
    assert!(!output.messages.is_empty());
    match &output.messages[0] {
        ConsensusMessage::Prevote { block_hash: h, .. } => assert_eq!(*h, Some(block_hash)),
        _ => panic!("Expected prevote"),
    }

    let mut precommit_found = false;
    for p in &pks[1..] {
        let output = engine.on_prevote(make_prevote_msg(1, 0, Some(block_hash), *p));
        for msg in &output.messages {
            if matches!(msg, ConsensusMessage::Precommit { .. }) {
                precommit_found = true;
            }
        }
    }
    assert!(precommit_found, "Engine should have sent a precommit after seeing quorum prevotes");

    let mut committed = false;
    for p in &pks[1..] {
        let output = engine.on_precommit(make_precommit_msg(1, 0, Some(block_hash), *p));
        if output.committed_block.is_some() {
            committed = true;
            let cb = output.committed_block.unwrap();
            assert_eq!(cb.block.height, 1);
            assert_eq!(cb.commit_round, 0);
            break;
        }
    }
    assert!(committed, "Block should have been committed");
    assert_eq!(engine.step(), ConsensusStep::Commit);
}

#[test]
fn test_propose_timeout_sends_nil_prevote() {
    let (pks, vs) = make_validator_set(4, 100);
    let mut engine = ConsensusEngine::new(BftConfig::default(), pks[0], vs);
    engine.start_new_height(1);
    let output = engine.on_timeout(ConsensusStep::Propose);
    assert_eq!(output.messages.len(), 1);
    match &output.messages[0] {
        ConsensusMessage::Prevote { block_hash, .. } => assert!(block_hash.is_none(), "Should be nil prevote"),
        _ => panic!("Expected prevote"),
    }
    assert_eq!(engine.step(), ConsensusStep::Prevote);
}

#[test]
fn test_prevote_timeout_sends_nil_precommit() {
    let (pks, vs) = make_validator_set(4, 100);
    let mut engine = ConsensusEngine::new(BftConfig::default(), pks[0], vs);
    engine.start_new_height(1);
    engine.on_timeout(ConsensusStep::Propose);
    let output = engine.on_timeout(ConsensusStep::Prevote);
    assert_eq!(output.messages.len(), 1);
    match &output.messages[0] {
        ConsensusMessage::Precommit { block_hash, .. } => assert!(block_hash.is_none(), "Should be nil precommit"),
        _ => panic!("Expected precommit"),
    }
    assert_eq!(engine.step(), ConsensusStep::Precommit);
}

#[test]
fn test_precommit_timeout_advances_round() {
    let (pks, vs) = make_validator_set(4, 100);
    let mut engine = ConsensusEngine::new(BftConfig::default(), pks[0], vs);
    engine.start_new_height(1);
    engine.on_timeout(ConsensusStep::Propose);
    engine.on_timeout(ConsensusStep::Prevote);
    let _output = engine.on_timeout(ConsensusStep::Precommit);
    assert_eq!(engine.round(), 1);
    assert_eq!(engine.step(), ConsensusStep::Propose);
}

#[test]
fn test_multiple_round_escalation() {
    let (pks, vs) = make_validator_set(4, 100);
    let mut engine = ConsensusEngine::new(BftConfig::default(), pks[0], vs);
    engine.start_new_height(1);
    for expected_round in 0..3u32 {
        assert_eq!(engine.round(), expected_round);
        engine.on_timeout(ConsensusStep::Propose);
        engine.on_timeout(ConsensusStep::Prevote);
        engine.on_timeout(ConsensusStep::Precommit);
    }
    assert_eq!(engine.round(), 3);
}

#[test]
fn test_lock_on_polka() {
    let (pks, vs) = make_validator_set(4, 100);
    let proposer_pk = proposer_for_round(&vs, 1, 0).unwrap();
    let mut engine = ConsensusEngine::new(BftConfig::default(), pks[0], vs.clone());
    engine.start_new_height(1);
    let block = make_block(1, proposer_pk, 1);
    let block_hash = block.hash();
    engine.on_proposal(make_proposal(1, 0, &block, proposer_pk, None));
    for p in &pks[1..3] {
        engine.on_prevote(make_prevote_msg(1, 0, Some(block_hash), *p));
    }
    assert_eq!(engine.state().locked_value, Some(block_hash));
    assert_eq!(engine.state().locked_round, Some(0));
}

/// Locks the engine (validator `pks[0]`) on `locked` in round 0 through a polka of the other
/// three validators, then times the round out.
fn lock_in_round_zero(engine: &mut ConsensusEngine, pks: &[Pubkey], locked: Hash32) {
    for p in &pks[1..4] {
        engine.on_prevote(make_prevote_msg(1, 0, Some(locked), *p));
    }
    assert_eq!(engine.state().locked_value, Some(locked));
    assert_eq!(engine.state().locked_round, Some(0));
    engine.on_timeout(ConsensusStep::Precommit);
}

#[test]
fn test_locked_validator_prevotes_for_locked_value() {
    let (pks, vs) = make_validator_set(4, 100);
    let mut engine = ConsensusEngine::new(BftConfig::default(), pks[0], vs.clone());
    engine.start_new_height(1);
    let locked_hash = hash(500);
    lock_in_round_zero(&mut engine, &pks, locked_hash);
    assert_eq!(engine.round(), 1);

    let proposer_pk = proposer_for_round(&vs, 1, 1).unwrap();
    let block = make_block(1, proposer_pk, 2);
    let output = engine.on_proposal(make_proposal(1, 1, &block, proposer_pk, None));
    if block.hash() != locked_hash {
        assert!(!output.messages.is_empty());
        match &output.messages[0] {
            ConsensusMessage::Prevote { block_hash, .. } => {
                assert!(block_hash.is_none(), "Locked validator should nil-prevote for non-matching proposal")
            },
            _ => panic!("Expected prevote"),
        }
    }
}

#[test]
fn test_unlock_with_valid_round() {
    let (pks, vs) = make_validator_set(4, 100);
    let mut engine = ConsensusEngine::new(BftConfig::default(), pks[0], vs.clone());
    engine.start_new_height(1);
    let old_hash = hash(501);
    lock_in_round_zero(&mut engine, &pks, old_hash);
    engine.on_timeout(ConsensusStep::Precommit);
    assert_eq!(engine.round(), 2);

    let proposer_pk = proposer_for_round(&vs, 1, 2).unwrap();
    let block = make_block(1, proposer_pk, 3);
    let output = engine.on_proposal(make_proposal(1, 2, &block, proposer_pk, Some(1)));
    assert!(!output.messages.is_empty());
    match &output.messages[0] {
        ConsensusMessage::Prevote { block_hash, .. } => {
            assert_eq!(*block_hash, Some(block.hash()), "Should unlock and prevote for new block")
        },
        _ => panic!("Expected prevote"),
    }
}

#[test]
fn test_ignore_wrong_height() {
    let (pks, vs) = make_validator_set(4, 100);
    let mut engine = ConsensusEngine::new(BftConfig::default(), pks[0], vs.clone());
    engine.start_new_height(5);
    let proposer_pk = proposer_for_round(&vs, 3, 0).unwrap();
    let block = make_block(3, proposer_pk, 1);
    let output = engine.on_proposal(make_proposal(3, 0, &block, proposer_pk, None));
    assert!(output.messages.is_empty());
}

#[test]
fn test_ignore_past_round() {
    let (pks, vs) = make_validator_set(4, 100);
    let mut engine = ConsensusEngine::new(BftConfig::default(), pks[0], vs.clone());
    engine.start_new_height(1);
    for _ in 0..2 {
        engine.on_timeout(ConsensusStep::Propose);
        engine.on_timeout(ConsensusStep::Prevote);
        engine.on_timeout(ConsensusStep::Precommit);
    }
    assert_eq!(engine.round(), 2);
    let output = engine.on_prevote(make_prevote_msg(1, 0, Some(hash(9)), pks[1]));
    assert!(output.messages.is_empty());
}

#[test]
fn test_ignore_invalid_proposer() {
    let (pks, vs) = make_validator_set(4, 100);
    let mut engine = ConsensusEngine::new(BftConfig::default(), pks[0], vs.clone());
    engine.start_new_height(1);
    let correct_proposer = proposer_for_round(&vs, 1, 0).unwrap();
    let wrong_proposer = pks.iter().find(|p| **p != correct_proposer).unwrap();
    let block = make_block(1, *wrong_proposer, 1);
    let output = engine.on_proposal(make_proposal(1, 0, &block, *wrong_proposer, None));
    assert!(output.messages.is_empty(), "Should reject proposal from wrong proposer");
}

#[test]
fn test_ignore_unknown_voter() {
    let (pks, vs) = make_validator_set(4, 100);
    let mut engine = ConsensusEngine::new(BftConfig::default(), pks[0], vs);
    engine.start_new_height(1);
    let output = engine.on_prevote(make_prevote_msg(1, 0, Some(hash(9)), pk(99)));
    assert!(output.messages.is_empty());
}

#[test]
fn test_future_round_proposal() {
    let (pks, vs) = make_validator_set(4, 100);
    let mut engine = ConsensusEngine::new(BftConfig::default(), pks[0], vs.clone());
    engine.start_new_height(1);
    let proposer_pk = proposer_for_round(&vs, 1, 3).unwrap();
    let block = make_block(1, proposer_pk, 1);
    let output = engine.on_proposal(make_proposal(1, 3, &block, proposer_pk, None));
    assert_eq!(engine.round(), 3);
    assert!(!output.messages.is_empty());
}

#[test]
fn test_commit_timeout_is_noop() {
    let (pks, vs) = make_validator_set(4, 100);
    let mut engine = ConsensusEngine::new(BftConfig::default(), pks[0], vs);
    engine.start_new_height(1);
    let output = engine.on_timeout(ConsensusStep::Commit);
    assert!(output.messages.is_empty());
    assert!(output.committed_block.is_none());
}

#[test]
fn test_step_ordering() {
    assert!(ConsensusStep::NewRound < ConsensusStep::Propose);
    assert!(ConsensusStep::Propose < ConsensusStep::Prevote);
    assert!(ConsensusStep::Prevote < ConsensusStep::Precommit);
    assert!(ConsensusStep::Precommit < ConsensusStep::Commit);
}

#[test]
fn engine_test_is_proposer() {
    let (_pks, vs) = make_validator_set(4, 100);
    let proposer_pk = proposer_for_round(&vs, 1, 0).unwrap();
    let engine = ConsensusEngine::new(BftConfig::default(), proposer_pk, vs);
    assert!(engine.is_proposer(1, 0));
}

#[test]
fn test_double_prevote_no_duplicate_message() {
    let (pks, vs) = make_validator_set(4, 100);
    let mut engine = ConsensusEngine::new(BftConfig::default(), pks[0], vs.clone());
    engine.start_new_height(1);
    let output1 = engine.on_timeout(ConsensusStep::Propose);
    assert_eq!(output1.messages.len(), 1);
    let output2 = engine.on_timeout(ConsensusStep::Propose);
    assert!(output2.messages.is_empty());
}

#[test]
fn polka_for_one_value_leaves_no_room_for_another() {
    // Quorum intersection: once three of four equal validators prevote A, a conflicting
    // prevote from the fourth cannot move the lock.
    let (pks, vs) = make_validator_set(4, 100);
    let mut engine = ConsensusEngine::new(BftConfig::default(), pks[0], vs);
    engine.start_new_height(1);
    for p in &pks[1..4] {
        engine.on_prevote(make_prevote_msg(1, 0, Some(hash(1)), *p));
    }
    engine.on_prevote(make_prevote_msg(1, 0, Some(hash(2)), pks[0]));
    assert_eq!(engine.state().locked_value, Some(hash(1)));
    assert!(!engine.has_quorum_prevotes(&Some(hash(2))));
    assert!(engine.has_quorum_prevotes(&Some(hash(1))));
}

#[test]
fn engine_records_double_sign_evidence() {
    let (pks, vs) = make_validator_set(4, 100);
    let mut engine = ConsensusEngine::new(BftConfig::default(), pks[0], vs);
    engine.start_new_height(1);
    engine.on_prevote(make_prevote_msg(1, 0, Some(hash(1)), pks[2]));
    engine.on_prevote(make_prevote_msg(1, 0, Some(hash(2)), pks[2]));
    assert_eq!(engine.evidence().evidence().len(), 1);
    assert!(engine.evidence().has_evidence_against(&pks[2]));
}

// ── evidence ────────────────────────────────────────────────────────────────

#[test]
fn test_no_double_sign_same_vote() {
    let mut collector = EvidenceCollector::new();
    let voter = pk(1);
    let h = Some(hash(1));
    assert!(collector.check_and_record(&make_prevote_msg(1, 0, h, voter)).is_none());
    assert!(collector.check_and_record(&make_prevote_msg(1, 0, h, voter)).is_none());
    assert!(collector.evidence().is_empty());
}

#[test]
fn test_double_sign_prevote() {
    let mut collector = EvidenceCollector::new();
    let voter = pk(1);
    let hash_a = Some(hash(1));
    let hash_b = Some(hash(2));
    assert!(collector.check_and_record(&make_prevote_msg(1, 0, hash_a, voter)).is_none());
    let evidence = collector.check_and_record(&make_prevote_msg(1, 0, hash_b, voter));
    assert!(evidence.is_some());
    let ev = evidence.unwrap();
    assert_eq!(ev.validator, voter);
    assert_eq!(ev.height, 1);
    assert_eq!(ev.round, 0);
    assert_eq!(ev.kind, EvidenceKind::ConflictingPrevote);
    assert_eq!(ev.vote_a.0, hash_a);
    assert_eq!(ev.vote_b.0, hash_b);
}

#[test]
fn test_double_sign_precommit() {
    let mut collector = EvidenceCollector::new();
    let voter = pk(1);
    assert!(collector.check_and_record(&make_precommit_msg(1, 0, Some(hash(1)), voter)).is_none());
    let evidence = collector.check_and_record(&make_precommit_msg(1, 0, Some(hash(2)), voter));
    assert!(evidence.is_some());
    assert_eq!(evidence.unwrap().kind, EvidenceKind::ConflictingPrecommit);
}

#[test]
fn test_no_double_sign_different_rounds() {
    let mut collector = EvidenceCollector::new();
    let voter = pk(1);
    assert!(collector.check_and_record(&make_prevote_msg(1, 0, Some(hash(1)), voter)).is_none());
    assert!(collector.check_and_record(&make_prevote_msg(1, 1, Some(hash(2)), voter)).is_none());
    assert!(collector.evidence().is_empty());
}

#[test]
fn test_no_double_sign_different_heights() {
    let mut collector = EvidenceCollector::new();
    let voter = pk(1);
    assert!(collector.check_and_record(&make_prevote_msg(1, 0, Some(hash(1)), voter)).is_none());
    assert!(collector.check_and_record(&make_prevote_msg(2, 0, Some(hash(2)), voter)).is_none());
    assert!(collector.evidence().is_empty());
}

#[test]
fn test_no_double_sign_different_voters() {
    let mut collector = EvidenceCollector::new();
    assert!(collector.check_and_record(&make_prevote_msg(1, 0, Some(hash(1)), pk(1))).is_none());
    assert!(collector.check_and_record(&make_prevote_msg(1, 0, Some(hash(2)), pk(2))).is_none());
    assert!(collector.evidence().is_empty());
}

#[test]
fn test_double_sign_nil_vs_value() {
    let mut collector = EvidenceCollector::new();
    let voter = pk(1);
    assert!(collector.check_and_record(&make_prevote_msg(1, 0, None, voter)).is_none());
    let evidence = collector.check_and_record(&make_prevote_msg(1, 0, Some(hash(1)), voter));
    assert!(evidence.is_some());
}

#[test]
fn test_prune_removes_old_votes() {
    let mut collector = EvidenceCollector::new();
    let voter = pk(1);
    collector.check_and_record(&make_prevote_msg(5, 0, Some(hash(1)), voter));
    assert_eq!(collector.tracked_votes(), 1);
    collector.prune(10);
    assert_eq!(collector.tracked_votes(), 0);
    assert!(collector.check_and_record(&make_prevote_msg(8, 0, Some(hash(2)), voter)).is_none());
    assert_eq!(collector.tracked_votes(), 0);
}

#[test]
fn test_drain_evidence() {
    let mut collector = EvidenceCollector::new();
    let voter = pk(1);
    collector.check_and_record(&make_prevote_msg(1, 0, Some(hash(1)), voter));
    collector.check_and_record(&make_prevote_msg(1, 0, Some(hash(2)), voter));
    let drained = collector.drain_evidence();
    assert_eq!(drained.len(), 1);
    assert!(collector.evidence().is_empty());
}

#[test]
fn test_has_evidence_against() {
    let mut collector = EvidenceCollector::new();
    let bad_voter = pk(1);
    let good_voter = pk(2);
    collector.check_and_record(&make_prevote_msg(1, 0, Some(hash(1)), bad_voter));
    collector.check_and_record(&make_prevote_msg(1, 0, Some(hash(2)), bad_voter));
    assert!(collector.has_evidence_against(&bad_voter));
    assert!(!collector.has_evidence_against(&good_voter));
}

#[test]
fn test_proposal_not_tracked() {
    let mut collector = EvidenceCollector::new();
    let msg = ConsensusMessage::Proposal {
        height: 1,
        round: 0,
        block: ProposedBlock {
            parent_hash: Hash32::default(),
            height: 1,
            timestamp: 1000,
            transactions: vec![],
            state_root: Hash32::default(),
            proposer: Pubkey::default(),
        },
        proposer: Pubkey::default(),
        signature: Signature::default(),
        valid_round: None,
    };
    assert!(collector.check_and_record(&msg).is_none());
    assert_eq!(collector.tracked_votes(), 0);
}

#[test]
fn evidence_kind_names() {
    assert_eq!(EvidenceKind::ConflictingPrevote.name(), "ConflictingPrevote");
    assert_eq!(EvidenceKind::ConflictingPrecommit.name(), "ConflictingPrecommit");
}

// ── timeouts ────────────────────────────────────────────────────────────────

#[test]
fn test_timeout_duration_propose_increases() {
    let scheduler = TimeoutScheduler::new(BftConfig::default());
    let d0 = scheduler.timeout_duration(ConsensusStep::Propose, 0);
    let d1 = scheduler.timeout_duration(ConsensusStep::Propose, 1);
    let d2 = scheduler.timeout_duration(ConsensusStep::Propose, 2);
    assert!(d1 > d0);
    assert!(d2 > d1);
}

#[test]
fn test_timeout_duration_prevote_constant() {
    let scheduler = TimeoutScheduler::new(BftConfig::default());
    let d0 = scheduler.timeout_duration(ConsensusStep::Prevote, 0);
    let d1 = scheduler.timeout_duration(ConsensusStep::Prevote, 5);
    assert_eq!(d0, d1);
    assert_eq!(d0, 1000);
}

#[test]
fn test_no_active_timeout() {
    let scheduler = TimeoutScheduler::new(BftConfig::default());
    assert!(scheduler.check_expired(0).is_none());
    assert!(scheduler.remaining(0).is_none());
    assert!(scheduler.active_step().is_none());
}

#[test]
fn test_start_and_cancel() {
    let mut scheduler = TimeoutScheduler::new(BftConfig::default());
    scheduler.start(ConsensusStep::Prevote, 0, 0);
    assert_eq!(scheduler.active_step(), Some(ConsensusStep::Prevote));
    scheduler.cancel();
    assert!(scheduler.active_step().is_none());
    assert!(scheduler.check_expired(0).is_none());
}

#[test]
fn test_timeout_expires() {
    let mut config = BftConfig::default();
    config.prevote_timeout_ms = 10;
    let mut scheduler = TimeoutScheduler::new(config);
    scheduler.start(ConsensusStep::Prevote, 0, 1_000);
    assert!(scheduler.check_expired(1_000).is_none());
    assert_eq!(scheduler.check_expired(1_020), Some(ConsensusStep::Prevote));
}

#[test]
fn test_remaining_decreases() {
    let mut scheduler = TimeoutScheduler::new(BftConfig::default());
    scheduler.start(ConsensusStep::Precommit, 0, 1_000);
    let r1 = scheduler.remaining(1_000).unwrap();
    let r2 = scheduler.remaining(1_010).unwrap();
    assert!(r2 < r1);
    assert_eq!(r1, 1_000);
    assert_eq!(r2, 990);
}

#[test]
fn test_commit_has_zero_timeout() {
    let scheduler = TimeoutScheduler::new(BftConfig::default());
    assert_eq!(scheduler.timeout_duration(ConsensusStep::Commit, 0), 0);
}

// ── configuration ───────────────────────────────────────────────────────────

#[test]
fn bft_config_test_default_config() {
    let config = BftConfig::default();
    assert_eq!(config.block_time_ms, 1000);
    assert_eq!(config.prevote_timeout_ms, 1000);
    assert_eq!(config.precommit_timeout_ms, 1000);
    assert_eq!(config.finality_threshold_ppm, 667_000);
    assert_eq!(config.max_rounds_per_height, 5);
    assert_eq!(config.propose_timeout_base_ms, 3000);
    assert_eq!(config.propose_timeout_delta_ms, 500);
}

#[test]
fn test_propose_timeout_increases_with_round() {
    let config = BftConfig::default();
    assert_eq!(config.propose_timeout_ms(0), 3000);
    assert_eq!(config.propose_timeout_ms(1), 3500);
    assert_eq!(config.propose_timeout_ms(2), 4000);
    assert_eq!(config.propose_timeout_ms(4), 5000);
}

#[test]
fn test_valid_config() {
    assert!(BftConfig::default().validate().is_ok());
}

#[test]
fn test_invalid_block_time() {
    let mut config = BftConfig::default();
    config.block_time_ms = 0;
    assert!(matches!(config.validate(), Err(ConfigError::InvalidBlockTime)));
}

#[test]
fn test_invalid_finality_threshold_too_low() {
    let mut config = BftConfig::default();
    config.finality_threshold_ppm = 300_000;
    assert!(matches!(config.validate(), Err(ConfigError::InvalidFinalityThreshold(_))));
}

#[test]
fn test_invalid_finality_threshold_too_high() {
    let mut config = BftConfig::default();
    config.finality_threshold_ppm = 1_100_000;
    assert!(matches!(config.validate(), Err(ConfigError::InvalidFinalityThreshold(_))));
}

#[test]
fn test_invalid_max_rounds() {
    let mut config = BftConfig::default();
    config.max_rounds_per_height = 0;
    assert!(matches!(config.validate(), Err(ConfigError::InvalidMaxRounds)));
}

#[test]
fn tallies_never_exceed_the_validator_count() {
    let (pks, vs) = make_validator_set(4, 100);
    let mut engine = ConsensusEngine::new(BftConfig::default(), pks[0], vs);
    engine.start_new_height(1);
    for n in 50..60u64 {
        engine.on_prevote(make_prevote_msg(1, 0, None, pk(n)));
        engine.on_precommit(make_precommit_msg(1, 0, None, pk(n)));
    }
    for _ in 0..3 {
        for p in &pks {
            engine.on_prevote(make_prevote_msg(1, 0, Some(hash(1)), *p));
        }
    }
    assert!(engine.state().prevotes.len() <= 4);
    assert!(engine.state().precommits.len() <= 4);
    for (voter, _) in &engine.state().prevotes {
        assert!(pks.contains(voter));
    }
}

#[test]
fn conflicting_quorums_need_validators_voting_twice() {
    // Two engines at the same height and round see a quorum for different blocks only if
    // some validators prevoted both: here validators 2 and 3 vote both ways, and the evidence
    // collector flags exactly them.
    let (pks, vs) = make_validator_set(4, 100);
    let (a, b) = (hash(1), hash(2));
    let mut collector = EvidenceCollector::new();
    for p in [pks[0], pks[1], pks[2]] {
        collector.check_and_record(&make_prevote_msg(1, 0, Some(a), p));
    }
    for p in [pks[1], pks[2], pks[3]] {
        collector.check_and_record(&make_prevote_msg(1, 0, Some(b), p));
    }
    let quorum = vs.quorum_stake(667_000);
    assert_eq!(quorum, 267);
    assert!(!collector.has_evidence_against(&pks[0]));
    assert!(collector.has_evidence_against(&pks[1]));
    assert!(collector.has_evidence_against(&pks[2]));
    assert!(!collector.has_evidence_against(&pks[3]));
    // 200 of the 400 stake voted twice: at least 2 * 267 - 400 = 134.
    assert!(200 >= 2 * quorum - vs.total_stake());
}

#[test]
fn a_committed_height_commits_nothing_else() {
    let (pks, vs) = make_validator_set(4, 100);
    let mut engine = ConsensusEngine::new(BftConfig::default(), pks[0], vs.clone());
    engine.start_new_height(1);
    let proposer = proposer_for_round(&vs, 1, 0).unwrap();
    let block = make_block(1, proposer, 1);
    let h = block.hash();
    engine.on_proposal(make_proposal(1, 0, &block, proposer, None));
    for p in &pks[1..] {
        engine.on_prevote(make_prevote_msg(1, 0, Some(h), *p));
    }
    let mut commits = 0;
    for p in &pks[1..] {
        if engine.on_precommit(make_precommit_msg(1, 0, Some(h), *p)).committed_block.is_some() {
            commits += 1;
        }
    }
    assert_eq!(commits, 1);
    assert_eq!(engine.step(), ConsensusStep::Commit);
    // A precommit timeout no longer opens the next round.
    let out = engine.on_timeout(ConsensusStep::Precommit);
    assert!(out.messages.is_empty());
    assert_eq!(engine.round(), 0);
    assert_eq!(engine.step(), ConsensusStep::Commit);
    // A proposal of another block for a later round, and a quorum for it, commit nothing.
    let proposer1 = proposer_for_round(&vs, 1, 1).unwrap();
    let other = make_block(1, proposer1, 2);
    let h2 = other.hash();
    assert!(engine.on_proposal(make_proposal(1, 1, &other, proposer1, Some(0))).messages.is_empty());
    for p in &pks {
        assert!(engine.on_prevote(make_prevote_msg(1, 1, Some(h2), *p)).messages.is_empty());
        assert!(engine.on_precommit(make_precommit_msg(1, 1, Some(h2), *p)).committed_block.is_none());
    }
    assert_eq!(engine.round(), 0);
    // The next height starts afresh.
    engine.start_new_height(2);
    assert_eq!(engine.step(), ConsensusStep::Propose);
}

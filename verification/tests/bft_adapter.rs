//! The consensus driver: starting heights, timeouts, and finishing committed blocks.

use trv1::bft::config::BftConfig;
use trv1::bft::proposer::{is_proposer, proposer_for_round};
use trv1::bft::step::ConsensusStep;
use trv1::bft::types::{ConsensusMessage, ProposedBlock};
use trv1::bft::validator_set::ValidatorSet;
use trv1::bft_adapter::{AdapterOutput, BftAdapter};
use trv1::primitives::{Hash32, Pubkey, Signature};
use trv1::producer::{BlockProducer, BlockProducerConfig};
use trv1::service::{msg_kind, poll_wait_ms};

fn pk(n: u64) -> Pubkey {
    let mut bytes = [0u8; 32];
    bytes[..8].copy_from_slice(&n.to_be_bytes());
    bytes[8..16].copy_from_slice(&n.wrapping_mul(0x9E37_79B9_7F4A_7C15).to_le_bytes());
    Pubkey { bytes }
}

fn hash(n: u64) -> Hash32 {
    let mut bytes = [0u8; 32];
    bytes[24..].copy_from_slice(&n.to_be_bytes());
    bytes[0] = 0xCD;
    Hash32 { bytes }
}

fn validators(n: u64) -> (Vec<Pubkey>, ValidatorSet) {
    let pks: Vec<Pubkey> = (1..=n).map(pk).collect();
    let vs = ValidatorSet::new(pks.iter().map(|p| (*p, 100)).collect());
    (pks, vs)
}

fn block(height: u64, proposer: Pubkey) -> ProposedBlock {
    ProposedBlock {
        parent_hash: Hash32::default(),
        height,
        timestamp: 5,
        transactions: vec![vec![1, 2, 3]],
        state_root: hash(height),
        proposer,
    }
}

/// Drives a four-validator network from `adapter`'s point of view until the block of
/// `height` is committed, and returns the engine output that carries it.
fn commit_height(adapter: &mut BftAdapter, pks: &[Pubkey], vs: &ValidatorSet, height: u64) -> trv1::bft::engine::EngineOutput {
    let proposer = proposer_for_round(vs, height, 0).unwrap();
    let b = block(height, proposer);
    let h = b.hash();
    let me = adapter.identity();
    adapter.handle_message(
        ConsensusMessage::Proposal { height, round: 0, block: b, proposer, signature: Signature::default(), valid_round: None },
        10,
    );
    for p in pks.iter().filter(|p| **p != me) {
        adapter.handle_message(
            ConsensusMessage::Prevote { height, round: 0, block_hash: Some(h), voter: *p, signature: Signature::default() },
            20,
        );
    }
    let mut committed = None;
    for p in pks.iter().filter(|p| **p != me) {
        let out = adapter.handle_message(
            ConsensusMessage::Precommit { height, round: 0, block_hash: Some(h), voter: *p, signature: Signature::default() },
            30,
        );
        if out.committed_block.is_some() {
            committed = Some(out);
            break;
        }
    }
    committed.expect("the block should commit")
}

#[test]
fn adapter_new_starts_idle() {
    let (pks, vs) = validators(4);
    let adapter = BftAdapter::new(BftConfig::default(), pks[0], vs, hash(7));
    assert_eq!(adapter.height(), 0);
    assert_eq!(adapter.round(), 0);
    assert_eq!(adapter.step(), ConsensusStep::NewRound);
    assert_eq!(adapter.identity(), pks[0]);
    assert_eq!(adapter.last_committed_hash(), hash(7));
    assert_eq!(adapter.time_to_next_timeout(0), None);
}

#[test]
fn adapter_output_empty_is_empty() {
    let out = AdapterOutput::empty();
    assert!(out.messages.is_empty());
    assert!(!out.block_committed);
    assert_eq!(out.committed_hash, None);
}

#[test]
fn adapter_start_height_reports_proposer_and_starts_propose_timeout() {
    let (pks, vs) = validators(4);
    let mut proposers = 0;
    for p in &pks {
        let mut adapter = BftAdapter::new(BftConfig::default(), *p, vs.clone(), Hash32::default());
        let (out, propose) = adapter.start_height(3, 1_000);
        assert!(out.messages.is_empty());
        assert!(!out.block_committed);
        assert_eq!(propose, is_proposer(&vs, p, 3, 0));
        if propose {
            proposers += 1;
        }
        assert_eq!(adapter.height(), 3);
        assert_eq!(adapter.step(), ConsensusStep::Propose);
        // The propose timeout of round 0 is the default 3000 ms.
        assert_eq!(adapter.time_to_next_timeout(1_000), Some(3_000));
        assert_eq!(adapter.time_to_next_timeout(2_500), Some(1_500));
        assert_eq!(adapter.time_to_next_timeout(9_000), Some(0));
    }
    assert_eq!(proposers, 1);
}

#[test]
fn adapter_proposal_message_carries_height_round_and_identity() {
    let (pks, vs) = validators(4);
    let me = proposer_for_round(&vs, 1, 0).unwrap();
    let mut adapter = BftAdapter::new(BftConfig::default(), me, vs, Hash32::default());
    adapter.start_height(1, 0);
    let b = block(1, me);
    match adapter.proposal_message(b.clone()) {
        ConsensusMessage::Proposal { height, round, block, proposer, signature, valid_round } => {
            assert_eq!(height, 1);
            assert_eq!(round, 0);
            assert_eq!(block.hash(), b.hash());
            assert_eq!(proposer, me);
            assert_eq!(signature, Signature::default());
            assert_eq!(valid_round, None);
        },
        _ => panic!("expected a proposal"),
    }
    assert!(pks.contains(&me));
}

#[test]
fn adapter_check_timeouts_before_expiry_does_nothing() {
    let (pks, vs) = validators(4);
    let mut adapter = BftAdapter::new(BftConfig::default(), pks[0], vs, Hash32::default());
    adapter.start_height(1, 1_000);
    let (out, propose) = adapter.check_timeouts(2_000);
    assert!(out.messages.is_empty());
    assert!(out.committed_block.is_none());
    assert!(!propose);
    assert_eq!(adapter.step(), ConsensusStep::Propose);
}

#[test]
fn adapter_propose_timeout_prevotes_nil_and_starts_prevote_timeout() {
    let (pks, vs) = validators(4);
    let mut adapter = BftAdapter::new(BftConfig::default(), pks[0], vs, Hash32::default());
    adapter.start_height(1, 1_000);
    let (out, propose) = adapter.check_timeouts(4_000);
    assert!(!propose);
    assert_eq!(adapter.step(), ConsensusStep::Prevote);
    assert_eq!(out.messages.len(), 1);
    match &out.messages[0] {
        ConsensusMessage::Prevote { block_hash, voter, .. } => {
            assert_eq!(*block_hash, None);
            assert_eq!(*voter, pks[0]);
        },
        _ => panic!("expected a nil prevote"),
    }
    // The prevote timeout (1000 ms) now runs from 4000.
    assert_eq!(adapter.time_to_next_timeout(4_400), Some(600));
}

#[test]
fn adapter_precommit_timeout_moves_to_next_round() {
    let (pks, vs) = validators(4);
    let mut adapter = BftAdapter::new(BftConfig::default(), pks[0], vs.clone(), Hash32::default());
    adapter.start_height(1, 0);
    adapter.check_timeouts(3_000);
    assert_eq!(adapter.step(), ConsensusStep::Prevote);
    adapter.check_timeouts(4_000);
    assert_eq!(adapter.step(), ConsensusStep::Precommit);
    let (_, propose) = adapter.check_timeouts(5_000);
    assert_eq!(adapter.round(), 1);
    assert_eq!(adapter.step(), ConsensusStep::Propose);
    assert_eq!(propose, is_proposer(&vs, &pks[0], 1, 1));
    // Round 1 waits 3000 + 500 ms for a proposal.
    assert_eq!(adapter.time_to_next_timeout(5_000), Some(3_500));
}

#[test]
fn adapter_commit_with_successful_execution_records_block_hash() {
    let (pks, vs) = validators(4);
    let mut adapter = BftAdapter::new(BftConfig::default(), pks[0], vs.clone(), hash(0));
    adapter.start_height(1, 0);
    let output = commit_height(&mut adapter, &pks, &vs, 1);
    let block_hash = output.committed_block.as_ref().unwrap().block.hash();
    let bank_hash = hash(99);
    let out = adapter.process_engine_output(output, Some(Ok(bank_hash)));
    assert!(out.block_committed);
    assert_eq!(out.committed_hash, Some(bank_hash));
    assert_eq!(adapter.last_committed_hash(), block_hash);
    assert_eq!(adapter.time_to_next_timeout(100), None);
}

#[test]
fn adapter_commit_with_failed_execution_keeps_last_hash() {
    let (pks, vs) = validators(4);
    let mut adapter = BftAdapter::new(BftConfig::default(), pks[0], vs.clone(), hash(0));
    adapter.start_height(1, 0);
    let output = commit_height(&mut adapter, &pks, &vs, 1);
    let block_hash = output.committed_block.as_ref().unwrap().block.hash();
    let out = adapter.process_engine_output(output, Some(Err("bank refused".to_string())));
    assert!(out.block_committed);
    assert_eq!(out.committed_hash, Some(block_hash));
    assert_eq!(adapter.last_committed_hash(), hash(0));
}

#[test]
fn adapter_output_without_commit_passes_messages_through() {
    let (pks, vs) = validators(4);
    let mut adapter = BftAdapter::new(BftConfig::default(), pks[0], vs, hash(0));
    adapter.start_height(1, 0);
    let (engine_out, _) = adapter.check_timeouts(3_000);
    let n = engine_out.messages.len();
    let out = adapter.process_engine_output(engine_out, None);
    assert_eq!(out.messages.len(), n);
    assert!(!out.block_committed);
    assert_eq!(out.committed_hash, None);
    assert_eq!(adapter.last_committed_hash(), hash(0));
}

#[test]
fn adapter_update_validator_set_keeps_position() {
    let (pks, vs) = validators(4);
    let mut adapter = BftAdapter::new(BftConfig::default(), pks[0], vs, hash(0));
    adapter.start_height(2, 0);
    let (_, bigger) = validators(7);
    adapter.update_validator_set(bigger.clone());
    assert_eq!(adapter.height(), 2);
    assert_eq!(adapter.step(), ConsensusStep::Propose);
    assert_eq!(adapter.engine().validator_set().len(), bigger.len());
}

#[test]
fn adapter_produce_block_builds_on_last_committed_hash() {
    let (pks, vs) = validators(4);
    let me = proposer_for_round(&vs, 5, 0).unwrap();
    let mut adapter = BftAdapter::new(BftConfig::default(), me, vs, hash(41));
    let (_, propose) = adapter.start_height(5, 0);
    assert!(propose);
    let (tx, rx) = crossbeam_channel::unbounded::<Vec<Vec<u8>>>();
    tx.send(vec![vec![1], vec![2], vec![3]]).unwrap();
    let producer = BlockProducer::new(rx, BlockProducerConfig { max_transactions_per_block: 2, max_compute_units_per_block: 1 });
    match adapter.produce_block(&producer, 5, hash(42), 123).unwrap() {
        ConsensusMessage::Proposal { height, round, block, proposer, valid_round, .. } => {
            assert_eq!(height, 5);
            assert_eq!(round, 0);
            assert_eq!(proposer, me);
            assert_eq!(valid_round, None);
            assert_eq!(block.parent_hash, hash(41));
            assert_eq!(block.state_root, hash(42));
            assert_eq!(block.timestamp, 123);
            assert_eq!(block.transactions, vec![vec![1], vec![2]]);
        },
        _ => panic!("expected a proposal"),
    }
    assert!(pks.contains(&me));
}

#[test]
fn service_config_defaults() {
    let c = trv1::service::ConsensusServiceConfig::default();
    assert_eq!(c.start_height, 1);
    assert_eq!(c.bft_config.block_time_ms, 1000);
    assert_eq!(c.block_producer_config.max_transactions_per_block, 2048);
}

#[test]
fn service_waits_at_most_the_poll_interval() {
    assert_eq!(poll_wait_ms(None), 50);
    assert_eq!(poll_wait_ms(Some(10)), 10);
    assert_eq!(poll_wait_ms(Some(0)), 0);
    assert_eq!(poll_wait_ms(Some(50)), 50);
    assert_eq!(poll_wait_ms(Some(3_000)), 50);
}

#[test]
fn service_message_kinds() {
    let b = block(1, pk(1));
    let h = b.hash();
    let prop = ConsensusMessage::Proposal { height: 1, round: 0, block: b, proposer: pk(1), signature: Signature::default(), valid_round: None };
    let pv = ConsensusMessage::Prevote { height: 1, round: 0, block_hash: Some(h), voter: pk(2), signature: Signature::default() };
    let pc = ConsensusMessage::Precommit { height: 1, round: 0, block_hash: None, voter: pk(3), signature: Signature::default() };
    assert_eq!(msg_kind(&prop), "Proposal");
    assert_eq!(msg_kind(&pv), "Prevote");
    assert_eq!(msg_kind(&pc), "Precommit");
}

#[test]
fn service_advances_after_a_commit() {
    assert_eq!(trv1::service::after_output(7, true, 1000), Some((8, 500)));
    assert_eq!(trv1::service::after_output(7, false, 1000), None);
    assert_eq!(trv1::service::after_output(0, true, 1), Some((1, 0)));
}

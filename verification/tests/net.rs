//! Consensus network scenarios: framing, message tags, peer bookkeeping and block sync.

use trv1::net::config::ConsensusNetConfig;
use trv1::net::error::ConsensusNetError;
use trv1::net::message::{accepted_frame_len, frame_payload, BlockData, ConsensusNetMessage, NetAddr, PeerInfo};
use trv1::net::peers::{PeerConnection, PeerManager};
use trv1::net::sync::{pick_peer, BlockSyncer};
use trv1::primitives::{Hash32, Pubkey};

fn pk(n: u64) -> Pubkey {
    let mut bytes = [0u8; 32];
    bytes[..8].copy_from_slice(&n.to_be_bytes());
    Pubkey { bytes }
}

fn test_peer(n: u8) -> PeerInfo {
    PeerInfo {
        pubkey: pk(n as u64),
        addr: NetAddr::v4(127, 0, 0, n, 8900),
        stake_weight: 1_000_000,
        is_active_validator: true,
    }
}

fn make_block_data(slot: u64) -> BlockData {
    BlockData {
        slot,
        parent_hash: Hash32::default(),
        block_hash: Hash32 { bytes: [7u8; 32] },
        transactions: vec![],
        state_root: Hash32::default(),
        merkle_root: Hash32::default(),
        merkle_proof: vec![],
        proposer: pk(42),
    }
}

// ── messages ───────────────────────────────────────────────────────────────

#[test]
fn test_framed_roundtrip() {
    let payload = vec![3u8, 0, 0, 0, 100, 0, 0, 0, 0, 0, 0, 0];
    let framed = frame_payload(&payload, 1_048_576).unwrap();
    let len = ConsensusNetMessage::read_frame_len(framed[..4].try_into().unwrap());
    assert_eq!(len, payload.len());
    assert_eq!(&framed[4..4usize.saturating_add(len)], &payload[..]);
}

#[test]
fn test_message_too_large() {
    let payload = vec![0u8; 12];
    let result = frame_payload(&payload, 1);
    assert!(result.is_err());
    assert!(matches!(result, Err(ConsensusNetError::MessageTooLarge { size: 12, max: 1 })));
}

#[test]
fn test_kind_tags() {
    let msg = ConsensusNetMessage::BlockRequest { height: 0 };
    assert_eq!(msg.kind(), "block_request");
    assert_eq!(ConsensusNetMessage::from_vote(vec![1]).kind(), "vote");
    assert_eq!(ConsensusNetMessage::from_certificate(vec![1]).kind(), "certificate");
    assert_eq!(ConsensusNetMessage::Heartbeat { pubkey: pk(1), latest_slot: 3 }.kind(), "heartbeat");
    assert_eq!(ConsensusNetMessage::HeartbeatAck { pubkey: pk(1), latest_slot: 3 }.kind(), "heartbeat_ack");
    assert_eq!(ConsensusNetMessage::ValidatorSetUpdate { epoch: 1, validators: vec![] }.kind(), "validator_set_update");
    assert_eq!(ConsensusNetMessage::BlockData(make_block_data(1)).kind(), "block_data");
    assert_eq!(ConsensusNetMessage::PeerAnnounce(test_peer(1)).kind(), "peer_announce");
}

#[test]
fn frame_header_is_little_endian_length() {
    let framed = frame_payload(&[0u8; 258], 1_000).unwrap();
    assert_eq!(&framed[..4], &[2, 1, 0, 0]);
    assert_eq!(framed.len(), 262);
    assert_eq!(accepted_frame_len(&[2, 1, 0, 0], 1_000), Some(258));
    assert_eq!(accepted_frame_len(&[2, 1, 0, 0], 257), None);
    assert_eq!(ConsensusNetMessage::read_frame_len(&[0xff, 0xff, 0xff, 0xff]), 0xffff_ffff);
}

// ── configuration ──────────────────────────────────────────────────────────

#[test]
fn network_config_defaults() {
    let c = ConsensusNetConfig::default();
    assert_eq!(c.bind_addr, NetAddr::v4(0, 0, 0, 0, 8900));
    assert_eq!(c.max_peers, 200);
    assert_eq!(c.max_message_size, 1_048_576);
    let d = ConsensusNetConfig::dev_default();
    assert_eq!(d.bind_addr, NetAddr::v4(127, 0, 0, 1, 0));
    assert_eq!(d.max_peers, 10);
    assert_eq!(d.max_sync_requests, 4);
}

// ── peers ──────────────────────────────────────────────────────────────────

#[test]
fn test_add_and_query_peer() {
    let mut pm = PeerManager::new(ConsensusNetConfig::dev_default());
    let info = test_peer(1);
    let p = info.pubkey;
    pm.add_peer(info, 0).unwrap();
    assert_eq!(pm.peer_count(), 1);
    assert!(pm.get_peer(&p).is_some());
    assert!(pm.active_validators.contains(&p));
}

#[test]
fn test_max_peers_enforced() {
    let mut cfg = ConsensusNetConfig::dev_default();
    cfg.max_peers = 2;
    let mut pm = PeerManager::new(cfg);
    pm.add_peer(test_peer(1), 0).unwrap();
    pm.add_peer(test_peer(2), 0).unwrap();
    assert!(pm.add_peer(test_peer(3), 0).is_err());
    assert!(matches!(pm.add_peer(test_peer(3), 0), Err(ConsensusNetError::MaxPeersReached(2))));
    // A known peer re-announcing is accepted at the limit.
    assert!(pm.add_peer(test_peer(1), 0).is_ok());
}

#[test]
fn test_remove_peer() {
    let mut pm = PeerManager::new(ConsensusNetConfig::dev_default());
    let info = test_peer(1);
    let p = info.pubkey;
    pm.add_peer(info, 0).unwrap();
    pm.remove_peer(&p);
    assert_eq!(pm.peer_count(), 0);
    assert!(!pm.active_validators.contains(&p));
}

#[test]
fn test_connected_validators_filter() {
    let mut pm = PeerManager::new(ConsensusNetConfig::dev_default());
    let p1 = test_peer(1);
    let p2 = test_peer(2);
    let pk1 = p1.pubkey;
    let pk2 = p2.pubkey;
    pm.add_peer(p1, 0).unwrap();
    pm.add_peer(p2, 0).unwrap();
    pm.mark_connected(&pk1, 0).unwrap();
    let connected: Vec<_> = pm.connected_validator_keys();
    assert_eq!(connected.len(), 1);
    assert_eq!(connected[0], pk1);
    let _ = pk2;
}

#[test]
fn mark_connected_unknown_peer_fails() {
    let mut pm = PeerManager::new(ConsensusNetConfig::dev_default());
    assert!(matches!(pm.mark_connected(&pk(9), 0), Err(ConsensusNetError::UnknownPeer(_))));
}

#[test]
fn stale_peers_are_disconnected() {
    let mut pm = PeerManager::new(ConsensusNetConfig::dev_default()); // 5 s timeout
    pm.add_peer(test_peer(1), 0).unwrap();
    pm.add_peer(test_peer(2), 0).unwrap();
    pm.mark_connected(&pk(1), 1_000).unwrap();
    pm.mark_connected(&pk(2), 4_000).unwrap();
    assert_eq!(pm.connected_count(), 2);
    let stale = pm.evict_stale_peers(7_000);
    assert_eq!(stale, vec![pk(1)]);
    assert_eq!(pm.connected_count(), 1);
    assert!(!pm.get_peer(&pk(1)).unwrap().is_connected);
}

#[test]
fn peer_counters_and_silence() {
    let mut conn = PeerConnection::new(test_peer(1), 1_000);
    conn.record_sent();
    conn.record_received(3_500);
    assert_eq!(conn.messages_sent, 1);
    assert_eq!(conn.messages_received, 1);
    assert_eq!(conn.silence_secs(6_499), 2);
    assert_eq!(conn.silence_secs(0), 0);
}

#[test]
fn validator_set_update_replaces_active_validators() {
    let mut pm = PeerManager::new(ConsensusNetConfig::dev_default());
    pm.add_peer(test_peer(1), 0).unwrap();
    pm.update_active_validators(vec![pk(2), pk(3), pk(2)]);
    assert!(!pm.active_validators.contains(&pk(1)));
    assert_eq!(pm.active_validators.len(), 2);
}

// ── sync ───────────────────────────────────────────────────────────────────

#[test]
fn test_handle_response_completes() {
    let mut syncer = BlockSyncer::new(ConsensusNetConfig::dev_default());
    syncer.record_request(10, pk(5), NetAddr::v4(127, 0, 0, 1, 8900), 0);
    let result = syncer.handle_response(10, make_block_data(10));
    assert!(result.is_some());
    assert!(syncer.is_completed(10));
    assert_eq!(syncer.in_flight(), 0);
}

#[test]
fn test_unsolicited_response_ignored() {
    let mut syncer = BlockSyncer::new(ConsensusNetConfig::dev_default());
    assert!(syncer.handle_response(99, make_block_data(99)).is_none());
}

#[test]
fn next_request_skips_requested_heights_and_respects_limit() {
    let mut syncer = BlockSyncer::new(ConsensusNetConfig::dev_default()); // 4 in flight at most
    let addr = NetAddr::v4(127, 0, 0, 1, 8900);
    syncer.record_request(5, pk(1), addr, 0);
    syncer.record_request(6, pk(1), addr, 0);
    syncer.handle_response(6, make_block_data(6));
    assert_eq!(syncer.next_request(5, 10), Some(7));
    syncer.record_request(7, pk(1), addr, 0);
    syncer.record_request(8, pk(1), addr, 0);
    syncer.record_request(9, pk(1), addr, 0);
    assert_eq!(syncer.in_flight(), 4);
    assert_eq!(syncer.next_request(5, 10), None);
    assert_eq!(syncer.next_request(5, 9), None);
}

#[test]
fn timed_out_requests_retry_then_give_up() {
    let mut syncer = BlockSyncer::new(ConsensusNetConfig::dev_default()); // 1 s timeout
    let addr = NetAddr::v4(127, 0, 0, 1, 8900);
    syncer.record_request(3, pk(1), addr, 0);
    let (retry, failed) = syncer.take_timed_out(500);
    assert!(retry.is_empty() && failed.is_empty());
    assert_eq!(syncer.in_flight(), 1);
    let mut now = 0;
    for attempt in 1..5u32 {
        now += 2_000;
        let (retry, failed) = syncer.take_timed_out(now);
        assert_eq!(retry.len(), 1);
        assert_eq!(retry[0].attempts, attempt);
        assert!(failed.is_empty());
        syncer.record_retry(retry[0], pk(2), addr, now);
    }
    now += 2_000;
    let (retry, failed) = syncer.take_timed_out(now);
    assert!(retry.is_empty());
    assert_eq!(failed, vec![3]);
    assert_eq!(syncer.in_flight(), 0);
    syncer.reset();
    assert!(!syncer.is_completed(3));
}

#[test]
fn pick_peer_prefers_connected_validators() {
    let mut pm = PeerManager::new(ConsensusNetConfig::dev_default());
    assert!(matches!(pick_peer(&pm, 0), Err(ConsensusNetError::InvalidMessage(_))));
    let mut observer = test_peer(3);
    observer.is_active_validator = false;
    pm.add_peer(observer, 0).unwrap();
    pm.mark_connected(&pk(3), 0).unwrap();
    assert_eq!(pick_peer(&pm, 7).unwrap().0, pk(3));
    pm.add_peer(test_peer(1), 0).unwrap();
    pm.add_peer(test_peer(2), 0).unwrap();
    pm.mark_connected(&pk(1), 0).unwrap();
    pm.mark_connected(&pk(2), 0).unwrap();
    assert_eq!(pick_peer(&pm, 0).unwrap().0, pk(1));
    assert_eq!(pick_peer(&pm, 3).unwrap(), (pk(2), NetAddr::v4(127, 0, 0, 2, 8900)));
}

#[test]
fn a_second_response_for_a_height_is_dropped() {
    let mut syncer = BlockSyncer::new(ConsensusNetConfig::dev_default());
    let addr = NetAddr::v4(127, 0, 0, 1, 8900);
    syncer.record_request(10, pk(5), addr, 0);
    syncer.record_request(11, pk(6), addr, 0);
    assert!(syncer.handle_response(10, make_block_data(10)).is_some());
    assert!(syncer.handle_response(10, make_block_data(10)).is_none());
    assert!(syncer.is_pending(11));
    assert_eq!(syncer.in_flight(), 1);
}

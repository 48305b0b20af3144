//! The messages of the consensus network and their length-prefixed framing.
//!
//! Every frame on the consensus channel is `[len: u32 LE][payload: len bytes]`, where the
//! payload is the encoded message.

use vstd::prelude::*;
use crate::primitives::{Hash32, Pubkey, le_bytes, push_le};
use crate::accounts::cold_storage::{le_value, lemma_le_roundtrip};
use crate::net::error::ConsensusNetError;
use vstd::arithmetic::power::pow;

verus! {

/// A socket address: an IPv4 address in the first four bytes of `ip` (the rest zero), or an
/// IPv6 address in all sixteen, and a port.
#[derive(Debug, Clone, Copy, PartialEq, Eq)]
pub struct NetAddr {
    /// The address bytes.
    pub ip: [u8; 16],
    /// Whether the address is IPv6.
    pub is_ipv6: bool,
    /// The port.
    pub port: u16,
}

impl NetAddr {
    /// The IPv4 address `a.b.c.d:port`.
    pub fn v4(a: u8, b: u8, c: u8, d: u8, port: u16) -> (r: Self)
        ensures
            !r.is_ipv6,
            r.port == port,
            r.ip@ == seq![a, b, c, d, 0u8, 0u8, 0u8, 0u8, 0u8, 0u8, 0u8, 0u8, 0u8, 0u8, 0u8, 0u8],
    {
        let ip: [u8; 16] = [a, b, c, d, 0, 0, 0, 0, 0, 0, 0, 0, 0, 0, 0, 0];
        proof {
            assert(ip@ =~= seq![a, b, c, d, 0u8, 0u8, 0u8, 0u8, 0u8, 0u8, 0u8, 0u8, 0u8, 0u8, 0u8, 0u8]);
        }
        NetAddr { ip, is_ipv6: false, port }
    }
}

/// A peer on the consensus network.
#[derive(Debug, Clone, Copy)]
pub struct PeerInfo {
    /// The peer's identity.
    pub pubkey: Pubkey,
    /// Where the peer is reachable.
    pub addr: NetAddr,
    /// Stake weight, in lamports.
    pub stake_weight: u64,
    /// Whether the peer is an active validator this epoch.
    pub is_active_validator: bool,
}

/// A validator of an upcoming epoch.
#[derive(Debug, Clone, Copy)]
pub struct ValidatorInfo {
    /// The validator's identity.
    pub pubkey: Pubkey,
    /// Stake weight for the epoch.
    pub stake_weight: u64,
    /// Consensus network address.
    pub consensus_addr: NetAddr,
}

/// A block as sent over the wire.
#[derive(Debug, Clone)]
pub struct BlockData {
    /// The block's slot.
    pub slot: u64,
    /// The parent block's hash.
    pub parent_hash: Hash32,
    /// The block's hash.
    pub block_hash: Hash32,
    /// Encoded transactions.
    pub transactions: Vec<Vec<u8>>,
    /// The state root after execution.
    pub state_root: Hash32,
    /// Root of the transaction Merkle tree.
    pub merkle_root: Hash32,
    /// Merkle proof nodes for `merkle_root`.
    pub merkle_proof: Vec<Hash32>,
    /// The proposer.
    pub proposer: Pubkey,
}

/// A consensus-engine message carried over the network, in its encoded form.
#[derive(Debug, Clone)]
pub enum ConsensusPayload {
    /// An encoded vote.
    Vote(Vec<u8>),
    /// An encoded certificate.
    Certificate(Vec<u8>),
}

/// A message of the consensus network.
#[derive(Debug, Clone)]
pub enum ConsensusNetMessage {
    /// A vote or certificate of the consensus engine.
    Consensus(ConsensusPayload),
    /// A block broadcast by its proposer.
    BlockData(BlockData),
    /// A peer announcing itself.
    PeerAnnounce(PeerInfo),
    /// A request for the block at a height.
    BlockRequest { height: u64 },
    /// The block at a requested height.
    BlockResponse { height: u64, block: BlockData },
    /// The validator set of an epoch.
    ValidatorSetUpdate { epoch: u64, validators: Vec<ValidatorInfo> },
    /// A keep-alive with the sender's highest committed slot.
    Heartbeat { pubkey: Pubkey, latest_slot: u64 },
    /// The answer to a heartbeat.
    HeartbeatAck { pubkey: Pubkey, latest_slot: u64 },
}

/// The tag a message is logged under.
pub open spec fn kind_spec(m: ConsensusNetMessage) -> Seq<char> {
    match m {
        ConsensusNetMessage::Consensus(ConsensusPayload::Vote(_)) => "vote"@,
        ConsensusNetMessage::Consensus(ConsensusPayload::Certificate(_)) => "certificate"@,
        ConsensusNetMessage::BlockData(_) => "block_data"@,
        ConsensusNetMessage::PeerAnnounce(_) => "peer_announce"@,
        ConsensusNetMessage::BlockRequest { .. } => "block_request"@,
        ConsensusNetMessage::BlockResponse { .. } => "block_response"@,
        ConsensusNetMessage::ValidatorSetUpdate { .. } => "validator_set_update"@,
        ConsensusNetMessage::Heartbeat { .. } => "heartbeat"@,
        ConsensusNetMessage::HeartbeatAck { .. } => "heartbeat_ack"@,
    }
}

/// The frame of a payload: its length modulo `2^32` in four little-endian bytes, then the
/// payload.
pub open spec fn frame_spec(payload: Seq<u8>) -> Seq<u8> {
    le_bytes((payload.len() % 0x1_0000_0000) as nat, 4) + payload
}

impl ConsensusNetMessage {
    /// The tag the message is logged under.
    pub fn kind(&self) -> (r: &'static str)
        ensures
            r@ == kind_spec(*self),
    {
        match self {
            ConsensusNetMessage::Consensus(ConsensusPayload::Vote(_)) => "vote",
            ConsensusNetMessage::Consensus(ConsensusPayload::Certificate(_)) => "certificate",
            ConsensusNetMessage::BlockData(_) => "block_data",
            ConsensusNetMessage::PeerAnnounce(_) => "peer_announce",
            ConsensusNetMessage::BlockRequest { .. } => "block_request",
            ConsensusNetMessage::BlockResponse { .. } => "block_response",
            ConsensusNetMessage::ValidatorSetUpdate { .. } => "validator_set_update",
            ConsensusNetMessage::Heartbeat { .. } => "heartbeat",
            ConsensusNetMessage::HeartbeatAck { .. } => "heartbeat_ack",
        }
    }

    /// Wraps an encoded vote for transmission.
    pub fn from_vote(vote: Vec<u8>) -> (r: Self)
        ensures
            r == ConsensusNetMessage::Consensus(ConsensusPayload::Vote(vote)),
    {
        ConsensusNetMessage::Consensus(ConsensusPayload::Vote(vote))
    }

    /// Wraps an encoded certificate for transmission.
    pub fn from_certificate(cert: Vec<u8>) -> (r: Self)
        ensures
            r == ConsensusNetMessage::Consensus(ConsensusPayload::Certificate(cert)),
    {
        ConsensusNetMessage::Consensus(ConsensusPayload::Certificate(cert))
    }

    /// The payload length a frame header announces.
    pub fn read_frame_len(header: &[u8; 4]) -> (r: usize)
        ensures
            r == le_value(header@),
    {
        proof {
            reveal_with_fuel(le_value, 5);
            assert(header@.drop_first().drop_first().drop_first().drop_first() =~= Seq::<u8>::empty());
        }
        let v: u64 = header[0] as u64 + 256 * (header[1] as u64 + 256 * (header[2] as u64 + 256 * header[3] as u64));
        proof {
            assert(v < 0x1_0000_0000);
        }
        v as usize
    }
}

/// Frames an encoded message: refused as too large above `max_size` bytes, else prefixed with
/// its length.
pub fn frame_payload(payload: &[u8], max_size: usize) -> (r: Result<Vec<u8>, ConsensusNetError>)
    ensures
        payload@.len() > max_size ==> (r matches Err(ConsensusNetError::MessageTooLarge { size, max })
            && size == payload@.len() && max == max_size),
        payload@.len() <= max_size ==> (r matches Ok(frame) && frame@ == frame_spec(payload@)),
{
    if payload.len() > max_size {
        return Err(ConsensusNetError::MessageTooLarge { size: payload.len(), max: max_size });
    }
    let len: u64 = payload.len() as u64 % 0x1_0000_0000;
    let mut buf: Vec<u8> = Vec::new();
    push_le(&mut buf, len, 4);
    crate::accounts::rent::push_all(&mut buf, payload);
    Ok(buf)
}

/// The announced length of a frame whose header is `header`, if it is within `max_size`; a
/// longer frame closes the connection.
pub fn accepted_frame_len(header: &[u8; 4], max_size: usize) -> (r: Option<usize>)
    ensures
        le_value(header@) <= max_size ==> r == Some(le_value(header@) as usize),
        le_value(header@) > max_size ==> r is None,
{
    let len = ConsensusNetMessage::read_frame_len(header);
    if len > max_size {
        None
    } else {
        Some(len)
    }
}

/// A frame carries its payload back: the header of the frame of a payload shorter than `2^32`
/// bytes announces the payload's length, and the payload follows it.
pub proof fn law_frame_roundtrip(payload: Seq<u8>)
    requires
        payload.len() < 0x1_0000_0000,
    ensures
        le_value(frame_spec(payload).subrange(0, 4)) == payload.len(),
        frame_spec(payload).subrange(4, 4 + payload.len() as int) == payload,
{
    reveal_with_fuel(pow, 5);
    lemma_le_roundtrip(payload.len(), 4);
    let f = frame_spec(payload);
    assert(f.subrange(0, 4) =~= le_bytes(payload.len(), 4));
    assert(f.subrange(4, 4 + payload.len() as int) =~= payload);
}

} // verus!

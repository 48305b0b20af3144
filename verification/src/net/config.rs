//! Configuration of the consensus networking layer.

use vstd::prelude::*;
use crate::net::message::NetAddr;

verus! {

/// Connection limits, timeouts and transport choices of the consensus network.
#[derive(Debug, Clone, Copy)]
pub struct ConsensusNetConfig {
    /// Where the consensus listener binds.
    pub bind_addr: NetAddr,
    /// The consensus port advertised to peers.
    pub consensus_port: u16,
    /// Most peers kept.
    pub max_peers: usize,
    /// Time allowed for a send or a response, in milliseconds.
    pub message_timeout_ms: u64,
    /// Interval between heartbeats, in milliseconds.
    pub heartbeat_interval_ms: u64,
    /// Largest encoded message, in bytes.
    pub max_message_size: usize,
    /// Whether QUIC is preferred over TCP.
    pub prefer_quic: bool,
    /// Seconds of silence after which a peer is considered dead.
    pub peer_timeout_secs: u64,
    /// Most block-sync requests in flight.
    pub max_sync_requests: usize,
    /// Capacity of the inbound message channel.
    pub channel_buffer_size: usize,
}

impl Default for ConsensusNetConfig {
    /// Binds `0.0.0.0:8900`; 200 peers, 5 s timeout, 500 ms heartbeat, 1 MiB messages, QUIC,
    /// 30 s peer timeout, 16 sync requests, a 10 000-message channel.
    fn default() -> (r: Self)
        ensures
            !r.bind_addr.is_ipv6,
            r.bind_addr.ip@ == seq![0u8, 0u8, 0u8, 0u8, 0u8, 0u8, 0u8, 0u8, 0u8, 0u8, 0u8, 0u8, 0u8, 0u8, 0u8, 0u8],
            r.bind_addr.port == 8900,
            r.consensus_port == 8900,
            r.max_peers == 200,
            r.message_timeout_ms == 5_000,
            r.heartbeat_interval_ms == 500,
            r.max_message_size == 1_048_576,
            r.prefer_quic,
            r.peer_timeout_secs == 30,
            r.max_sync_requests == 16,
            r.channel_buffer_size == 10_000,
    {
        ConsensusNetConfig {
            bind_addr: NetAddr::v4(0, 0, 0, 0, 8900),
            consensus_port: 8900,
            max_peers: 200,
            message_timeout_ms: 5_000,
            heartbeat_interval_ms: 500,
            max_message_size: 1_048_576,
            prefer_quic: true,
            peer_timeout_secs: 30,
            max_sync_requests: 16,
            channel_buffer_size: 10_000,
        }
    }
}

impl ConsensusNetConfig {
    /// A configuration for local tests: binds `127.0.0.1:0`; 10 peers, 1 s timeout, 200 ms
    /// heartbeat, 1 MiB messages, TCP, 5 s peer timeout, 4 sync requests, a 1 000-message
    /// channel.
    pub fn dev_default() -> (r: Self)
        ensures
            !r.bind_addr.is_ipv6,
            r.bind_addr.ip@ == seq![127u8, 0u8, 0u8, 1u8, 0u8, 0u8, 0u8, 0u8, 0u8, 0u8, 0u8, 0u8, 0u8, 0u8, 0u8, 0u8],
            r.bind_addr.port == 0,
            r.consensus_port == 0,
            r.max_peers == 10,
            r.message_timeout_ms == 1_000,
            r.heartbeat_interval_ms == 200,
            r.max_message_size == 1_048_576,
            !r.prefer_quic,
            r.peer_timeout_secs == 5,
            r.max_sync_requests == 4,
            r.channel_buffer_size == 1_000,
    {
        ConsensusNetConfig {
            bind_addr: NetAddr::v4(127, 0, 0, 1, 0),
            consensus_port: 0,
            max_peers: 10,
            message_timeout_ms: 1_000,
            heartbeat_interval_ms: 200,
            max_message_size: 1_048_576,
            prefer_quic: false,
            peer_timeout_secs: 5,
            max_sync_requests: 4,
            channel_buffer_size: 1_000,
        }
    }
}

} // verus!

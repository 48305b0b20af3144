//! Errors of the consensus networking layer.

use vstd::prelude::*;
use crate::primitives::Pubkey;
use crate::net::message::NetAddr;

verus! {

/// What went wrong in the consensus networking layer.
#[derive(Debug)]
pub enum ConsensusNetError {
    /// A message could not be encoded or decoded; the codec's message.
    Serialization(String),
    /// A message is larger than the configured maximum.
    MessageTooLarge { size: usize, max: usize },
    /// The peer is not known.
    UnknownPeer(Pubkey),
    /// The peer is already connected.
    PeerAlreadyConnected(Pubkey),
    /// The peer limit is reached.
    MaxPeersReached(usize),
    /// A transport I/O error; its message.
    Transport(String),
    /// No delivery or response within the given milliseconds.
    Timeout(u64),
    /// No block at the given height.
    BlockNotAvailable(u64),
    /// The channel to the consensus engine is closed.
    ChannelClosed,
    /// A peer sent an invalid message.
    InvalidMessage(String),
    /// A connection to the address failed, for the given reason.
    ConnectionFailed(NetAddr, String),
}

} // verus!

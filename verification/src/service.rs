//! The consensus service's settings and the decisions of its event loop: how long to wait for
//! the next message, what follows a committed block, and how to tag a message in the log.
//!
//! The loop itself (receiving from the network, sleeping, executing committed blocks) runs
//! around [`crate::bft_adapter::BftAdapter`] in the node.

use vstd::prelude::*;
use crate::bft::config::BftConfig;
use crate::bft::types::ConsensusMessage;
use crate::producer::BlockProducerConfig;

verus! {

/// How often, in milliseconds, the loop checks for timeouts when no message arrives.
pub const TIMEOUT_POLL_INTERVAL_MS: u64 = 50;

/// Settings of the consensus service.
#[derive(Debug, Clone, Copy)]
pub struct ConsensusServiceConfig {
    /// The engine's parameters.
    pub bft_config: BftConfig,
    /// Block production limits.
    pub block_producer_config: BlockProducerConfig,
    /// The first height to run consensus for (usually the last committed one plus one).
    pub start_height: u64,
}

impl Default for ConsensusServiceConfig {
    /// The default engine and producer settings, starting at height 1.
    fn default() -> (r: Self)
        ensures
            r.start_height == 1,
            r.bft_config.block_time_ms == 1000,
            r.bft_config.prevote_timeout_ms == 1000,
            r.bft_config.precommit_timeout_ms == 1000,
            r.bft_config.finality_threshold_ppm == 667_000,
            r.bft_config.max_rounds_per_height == 5,
            r.bft_config.propose_timeout_base_ms == 3000,
            r.bft_config.propose_timeout_delta_ms == 500,
            r.block_producer_config.max_transactions_per_block == 2048,
            r.block_producer_config.max_compute_units_per_block == 48_000_000,
    {
        ConsensusServiceConfig {
            bft_config: BftConfig::default(),
            block_producer_config: BlockProducerConfig::default(),
            start_height: 1,
        }
    }
}

/// How long the loop waits for a message: until the running timeout runs out, but never
/// longer than the poll interval, so that it stays responsive to shutdown.
pub fn poll_wait_ms(time_to_next_timeout: Option<u64>) -> (r: u64)
    ensures
        r == match time_to_next_timeout {
            Some(d) => if d < TIMEOUT_POLL_INTERVAL_MS { d } else { TIMEOUT_POLL_INTERVAL_MS },
            None => TIMEOUT_POLL_INTERVAL_MS,
        },
{
    match time_to_next_timeout {
        Some(d) => if d < TIMEOUT_POLL_INTERVAL_MS { d } else { TIMEOUT_POLL_INTERVAL_MS },
        None => TIMEOUT_POLL_INTERVAL_MS,
    }
}

/// What the loop does after an event at `height`: once a block is committed, it pauses for
/// half the block time and starts the next height, returned as that height and the pause in
/// milliseconds; otherwise it goes on with the same height (`None`).
pub fn after_output(height: u64, block_committed: bool, block_time_ms: u64) -> (r: Option<(u64, u64)>)
    requires
        block_committed ==> height < u64::MAX,
    ensures
        block_committed ==> r == Some(((height + 1) as u64, block_time_ms / 2)),
        !block_committed ==> r is None,
{
    if block_committed {
        Some((height + 1, block_time_ms / 2))
    } else {
        None
    }
}

/// The name of a message's kind, for the log.
pub open spec fn msg_kind_spec(msg: ConsensusMessage) -> Seq<char> {
    match msg {
        ConsensusMessage::Proposal { .. } => "Proposal"@,
        ConsensusMessage::Prevote { .. } => "Prevote"@,
        ConsensusMessage::Precommit { .. } => "Precommit"@,
    }
}

/// The name of a message's kind, for the log.
pub fn msg_kind(msg: &ConsensusMessage) -> (r: &'static str)
    ensures
        r@ == msg_kind_spec(*msg),
{
    match msg {
        ConsensusMessage::Proposal { .. } => "Proposal",
        ConsensusMessage::Prevote { .. } => "Prevote",
        ConsensusMessage::Precommit { .. } => "Precommit",
    }
}

} // verus!

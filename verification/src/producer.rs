//! Block production: draining the queue of pending transactions into a proposal under the
//! configured limits, and the structural check of a proposal from another validator.
//!
//! The bank is the caller's: it supplies the state root and the time of a new block, and
//! executes committed blocks.

use vstd::prelude::*;
use crate::primitives::{Hash32, Pubkey};
use crate::bft::types::ProposedBlock;
use crossbeam_channel::Receiver;

verus! {

/// The receiving end of a `crossbeam_channel` channel.
#[verifier::external_type_specification]
#[verifier::external_body]
#[verifier::reject_recursive_types(T)]
pub struct ExReceiver<T>(crossbeam_channel::Receiver<T>);

/// `crossbeam_channel::Receiver::try_recv`, without blocking: the next message if one is
/// waiting, `None` when the channel is empty or every sender is gone. Which message (if any)
/// comes back depends on the senders, so nothing is stated of it.
#[verifier::external_body]
fn try_recv<T>(rx: &Receiver<T>) -> (r: Option<T>) {
    rx.try_recv().ok()
}

/// Limits of block production.
#[derive(Debug, Clone, Copy)]
pub struct BlockProducerConfig {
    /// Most transactions in a block.
    pub max_transactions_per_block: usize,
    /// Most compute units in a block.
    pub max_compute_units_per_block: u64,
}

impl Default for BlockProducerConfig {
    /// 2048 transactions and 48 000 000 compute units per block.
    fn default() -> (r: Self)
        ensures
            r.max_transactions_per_block == 2048,
            r.max_compute_units_per_block == 48_000_000,
    {
        BlockProducerConfig { max_transactions_per_block: 2048, max_compute_units_per_block: 48_000_000 }
    }
}

/// Why a block could not be produced, validated or executed.
#[derive(Debug)]
pub enum BlockProducerError {
    /// No working bank is available.
    NoWorkingBank,
    /// The block is not at the expected height.
    HeightMismatch { expected: u64, got: u64 },
    /// The block does not build on the expected parent.
    ParentHashMismatch { expected: Hash32, got: Hash32 },
    /// The block holds more transactions than allowed.
    TooManyTransactions { count: usize, max: usize },
    /// The block uses more compute units than allowed.
    ExceedsComputeLimit { used: u64, max: u64 },
    /// A transaction failed to execute.
    ExecutionError(String),
    /// The proposer is not the expected one.
    InvalidProposer(Pubkey),
}

/// Adds a batch of pending transactions to those collected for a proposal, up to
/// `max_transactions`. Returns whether to keep draining the queue: a batch that does not fit
/// is cut to the room left and ends the collection, and so does reaching the limit.
pub fn take_batch(collected: &mut Vec<Vec<u8>>, batch: Vec<Vec<u8>>, max_transactions: usize) -> (more: bool)
    requires
        old(collected)@.len() < max_transactions,
    ensures
        ({
            let room = max_transactions - old(collected)@.len();
            if batch@.len() <= room {
                &&& final(collected)@ == old(collected)@ + batch@
                &&& more == (final(collected)@.len() < max_transactions)
            } else {
                &&& final(collected)@ == old(collected)@ + batch@.take(room)
                &&& !more
            }
        }),
        final(collected)@.len() <= max_transactions,
{
    let room = max_transactions - collected.len();
    let fits = batch.len() <= room;
    let mut rest = batch;
    if !fits {
        rest.truncate(room);
    }
    collected.append(&mut rest);
    fits && collected.len() < max_transactions
}

/// Drains batches of pending transactions from `rx` without blocking until the channel is
/// empty or `max_transactions` are collected (a batch that does not fit is cut to the room
/// left, see [`take_batch`]). Every receive is counted, so the drain ends even against a
/// sender that only sends empty batches.
pub fn collect_transactions(rx: &Receiver<Vec<Vec<u8>>>, max_transactions: usize) -> (r: Vec<Vec<u8>>)
    ensures
        r@.len() <= max_transactions,
{
    let mut collected: Vec<Vec<u8>> = Vec::new();
    let mut more = 0 < max_transactions;
    let mut polls: u64 = 0;
    while more && polls < u64::MAX
        invariant
            collected@.len() <= max_transactions,
            more ==> collected@.len() < max_transactions,
        decreases u64::MAX - polls,
    {
        polls = polls + 1;
        match try_recv(rx) {
            Some(batch) => {
                more = take_batch(&mut collected, batch, max_transactions);
            },
            None => {
                more = false;
            },
        }
    }
    collected
}

/// Produces the blocks this node proposes from the queue of pending transactions.
#[derive(Debug)]
pub struct BlockProducer {
    transaction_receiver: Receiver<Vec<Vec<u8>>>,
    config: BlockProducerConfig,
}

impl BlockProducer {
    /// The limits the producer works under.
    pub closed spec fn config_spec(&self) -> BlockProducerConfig {
        self.config
    }

    /// A producer draining `transaction_receiver` under `config`.
    pub fn new(transaction_receiver: Receiver<Vec<Vec<u8>>>, config: BlockProducerConfig) -> (r: Self)
        ensures
            r.config_spec() == config,
    {
        BlockProducer { transaction_receiver, config }
    }

    /// The limits the producer works under.
    pub fn config(&self) -> (r: BlockProducerConfig)
        ensures
            r == self.config_spec(),
    {
        self.config
    }

    /// A block at `height` on `parent_hash` by `proposer`, holding the pending transactions
    /// (at most the configured number, see [`collect_transactions`]), with the bank's
    /// `state_root` and the proposal time `timestamp`.
    pub fn create_block(&self, height: u64, parent_hash: Hash32, proposer: Pubkey, state_root: Hash32, timestamp: i64) -> (r: Result<ProposedBlock, BlockProducerError>)
        ensures
            r matches Ok(b) && b.height == height && b.parent_hash == parent_hash && b.proposer == proposer
                && b.state_root == state_root && b.timestamp == timestamp
                && b.transactions@.len() <= self.config_spec().max_transactions_per_block,
    {
        let transactions = collect_transactions(&self.transaction_receiver, self.config.max_transactions_per_block);
        Ok(ProposedBlock { parent_hash, height, timestamp, transactions, state_root, proposer })
    }

    /// Checks a proposal from another validator against the working bank, see
    /// [`validate_block`]: `expected_parent` is the bank's last blockhash, `expected_height` the
    /// height being decided.
    pub fn validate_block(&self, block: &ProposedBlock, expected_parent: &Hash32, expected_height: u64) -> (r: Result<(), BlockProducerError>)
        ensures
            r == validation_spec(self.config_spec(), block.transactions@.len(), block.parent_hash, block.height, *expected_parent, expected_height),
    {
        validate_block(&self.config, block, expected_parent, expected_height)
    }
}

/// The outcome of checking a proposal of `count` transactions on `parent` at `height`: too
/// many transactions, then a parent other than `expected_parent`, then a height other than
/// `expected_height`, are refused in that order.
pub open spec fn validation_spec(
    config: BlockProducerConfig,
    count: nat,
    parent: Hash32,
    height: u64,
    expected_parent: Hash32,
    expected_height: u64,
) -> Result<(), BlockProducerError> {
    if count > config.max_transactions_per_block {
        Err(BlockProducerError::TooManyTransactions { count: count as usize, max: config.max_transactions_per_block })
    } else if parent != expected_parent {
        Err(BlockProducerError::ParentHashMismatch { expected: expected_parent, got: parent })
    } else if height != expected_height {
        Err(BlockProducerError::HeightMismatch { expected: expected_height, got: height })
    } else {
        Ok(())
    }
}

/// Checks the structure of a proposal from another validator: it may hold at most the
/// configured number of transactions, must build on `expected_parent` (the working bank's
/// last blockhash) and be at `expected_height`. The transactions themselves are checked when
/// the block is executed.
pub fn validate_block(
    config: &BlockProducerConfig,
    block: &ProposedBlock,
    expected_parent: &Hash32,
    expected_height: u64,
) -> (r: Result<(), BlockProducerError>)
    ensures
        r == validation_spec(*config, block.transactions@.len(), block.parent_hash, block.height, *expected_parent, expected_height),
{
    if block.transactions.len() > config.max_transactions_per_block {
        return Err(
            BlockProducerError::TooManyTransactions {
                count: block.transactions.len(),
                max: config.max_transactions_per_block,
            },
        );
    }
    if !(block.parent_hash == *expected_parent) {
        return Err(BlockProducerError::ParentHashMismatch { expected: *expected_parent, got: block.parent_hash });
    }
    if block.height != expected_height {
        return Err(BlockProducerError::HeightMismatch { expected: expected_height, got: block.height });
    }
    Ok(())
}

} // verus!

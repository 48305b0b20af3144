//! Messages, blocks and the per-height state of the BFT protocol.

use vstd::prelude::*;
use crate::primitives::{Hash32, Pubkey, Signature, le_bytes, push_bytes32, push_u64_le, sha256, sha256_spec};
use crate::bft::step::ConsensusStep;

verus! {

/// A block proposed by a round's leader.
#[derive(Debug)]
pub struct ProposedBlock {
    /// Hash of the parent (previously committed) block.
    pub parent_hash: Hash32,
    /// Block height.
    pub height: u64,
    /// Proposal time, Unix milliseconds.
    pub timestamp: i64,
    /// Serialized transactions of the block.
    pub transactions: Vec<Vec<u8>>,
    /// State root after executing the block.
    pub state_root: Hash32,
    /// Key of the proposer.
    pub proposer: Pubkey,
}

/// The value of a block, with its transactions as byte strings.
#[verifier::ext_equal]
pub struct BlockView {
    pub parent_hash: Hash32,
    pub height: u64,
    pub timestamp: i64,
    pub transactions: Seq<Seq<u8>>,
    pub state_root: Hash32,
    pub proposer: Pubkey,
}

/// The bytes hashed to identify a block: parent hash, height and timestamp (little-endian),
/// state root and proposer. Transactions enter through the state root.
pub open spec fn block_preimage(b: BlockView) -> Seq<u8> {
    b.parent_hash.bytes@ + le_bytes(b.height as nat, 8) + le_bytes((b.timestamp as u64) as nat, 8)
        + b.state_root.bytes@ + b.proposer.bytes@
}

/// The identifying hash of a block.
pub open spec fn block_hash_spec(b: BlockView) -> Seq<u8> {
    sha256_spec(block_preimage(b))
}

/// Copies a list of transactions.
pub fn clone_transactions(v: &Vec<Vec<u8>>) -> (r: Vec<Vec<u8>>)
    ensures
        r@.len() == v@.len(),
        forall|i: int| 0 <= i < v@.len() ==> #[trigger] r@[i]@ == v@[i]@,
{
    let mut out: Vec<Vec<u8>> = Vec::new();
    let mut i: usize = 0;
    while i < v.len()
        invariant
            0 <= i <= v@.len(),
            out@.len() == i,
            forall|k: int| 0 <= k < i ==> #[trigger] out@[k]@ == v@[k]@,
        decreases v@.len() - i,
    {
        let t = v[i].clone();
        proof {
            assert(t@ =~= v@[i as int]@);
        }
        out.push(t);
        i = i + 1;
    }
    out
}

impl ProposedBlock {
    /// The block's value.
    pub open spec fn view(&self) -> BlockView {
        BlockView {
            parent_hash: self.parent_hash,
            height: self.height,
            timestamp: self.timestamp,
            transactions: self.transactions@.map_values(|t: Vec<u8>| t@),
            state_root: self.state_root,
            proposer: self.proposer,
        }
    }

    /// The identifying hash of the block: SHA-256 over parent hash, height, timestamp, state
    /// root and proposer.
    pub fn hash(&self) -> (r: Hash32)
        ensures
            r.bytes@ == block_hash_spec(self@),
    {
        let mut data: Vec<u8> = Vec::new();
        push_bytes32(&mut data, &self.parent_hash.bytes);
        push_u64_le(&mut data, self.height);
        push_u64_le(&mut data, self.timestamp as u64);
        push_bytes32(&mut data, &self.state_root.bytes);
        push_bytes32(&mut data, &self.proposer.bytes);
        sha256(data.as_slice())
    }

    /// A copy of the block with the same value.
    pub fn duplicate(&self) -> (r: ProposedBlock)
        ensures
            r@ == self@,
    {
        let transactions = clone_transactions(&self.transactions);
        let r = ProposedBlock {
            parent_hash: self.parent_hash,
            height: self.height,
            timestamp: self.timestamp,
            transactions,
            state_root: self.state_root,
            proposer: self.proposer,
        };
        assert(r@.transactions =~= self@.transactions);
        r
    }
}

impl Clone for ProposedBlock {
    fn clone(&self) -> (r: Self)
        ensures
            r@ == self@,
    {
        self.duplicate()
    }
}

/// Messages exchanged during a consensus round.
#[derive(Debug, Clone)]
pub enum ConsensusMessage {
    /// A block proposal from the round's leader; `valid_round` carries the round of a polka
    /// the proposer saw for this value, which lets locked validators unlock.
    Proposal {
        height: u64,
        round: u32,
        block: ProposedBlock,
        proposer: Pubkey,
        signature: Signature,
        valid_round: Option<u32>,
    },
    /// A prevote; `None` is a nil prevote.
    Prevote { height: u64, round: u32, block_hash: Option<Hash32>, voter: Pubkey, signature: Signature },
    /// A precommit; `None` is a nil precommit.
    Precommit { height: u64, round: u32, block_hash: Option<Hash32>, voter: Pubkey, signature: Signature },
}

impl ConsensusMessage {
    /// The height the message belongs to.
    pub fn height(&self) -> (r: u64)
        ensures
            r == match *self {
                ConsensusMessage::Proposal { height, .. } => height,
                ConsensusMessage::Prevote { height, .. } => height,
                ConsensusMessage::Precommit { height, .. } => height,
            },
    {
        match self {
            ConsensusMessage::Proposal { height, .. } => *height,
            ConsensusMessage::Prevote { height, .. } => *height,
            ConsensusMessage::Precommit { height, .. } => *height,
        }
    }

    /// The round the message belongs to.
    pub fn round(&self) -> (r: u32)
        ensures
            r == match *self {
                ConsensusMessage::Proposal { round, .. } => round,
                ConsensusMessage::Prevote { round, .. } => round,
                ConsensusMessage::Precommit { round, .. } => round,
            },
    {
        match self {
            ConsensusMessage::Proposal { round, .. } => *round,
            ConsensusMessage::Prevote { round, .. } => *round,
            ConsensusMessage::Precommit { round, .. } => *round,
        }
    }

    /// The key of the sender: the proposer or the voter.
    pub fn sender(&self) -> (r: &Pubkey)
        ensures
            *r == match *self {
                ConsensusMessage::Proposal { proposer, .. } => proposer,
                ConsensusMessage::Prevote { voter, .. } => voter,
                ConsensusMessage::Precommit { voter, .. } => voter,
            },
    {
        match self {
            ConsensusMessage::Proposal { proposer, .. } => proposer,
            ConsensusMessage::Prevote { voter, .. } => voter,
            ConsensusMessage::Precommit { voter, .. } => voter,
        }
    }

    /// The signature on the message.
    pub fn signature(&self) -> (r: &Signature)
        ensures
            *r == match *self {
                ConsensusMessage::Proposal { signature, .. } => signature,
                ConsensusMessage::Prevote { signature, .. } => signature,
                ConsensusMessage::Precommit { signature, .. } => signature,
            },
    {
        match self {
            ConsensusMessage::Proposal { signature, .. } => signature,
            ConsensusMessage::Prevote { signature, .. } => signature,
            ConsensusMessage::Precommit { signature, .. } => signature,
        }
    }
}

/// A block committed by a quorum of precommits.
#[derive(Debug, Clone)]
pub struct CommittedBlock {
    /// The committed block.
    pub block: ProposedBlock,
    /// The validators that precommitted it, with their signatures.
    pub commit_signatures: Vec<(Pubkey, Signature)>,
    /// The round in which the quorum formed.
    pub commit_round: u32,
}

/// The state of one height of consensus.
#[derive(Debug, Clone)]
pub struct ConsensusState {
    /// The height being decided.
    pub height: u64,
    /// The current round.
    pub round: u32,
    /// The current step of the round.
    pub step: ConsensusStep,
    /// The value this validator is locked on.
    pub locked_value: Option<Hash32>,
    /// The round in which the lock was taken.
    pub locked_round: Option<u32>,
    /// The last value seen with a polka (a quorum of prevotes).
    pub valid_value: Option<Hash32>,
    /// The round of that polka.
    pub valid_round: Option<u32>,
    /// Prevotes of the current round, one per voter (`None` = nil).
    pub prevotes: Vec<(Pubkey, Option<Hash32>)>,
    /// Precommits of the current round, one per voter (`None` = nil).
    pub precommits: Vec<(Pubkey, Option<Hash32>)>,
    /// The proposal of the current round, if one was received.
    pub proposal: Option<ProposedBlock>,
}

impl ConsensusState {
    /// A fresh state for `height`: round 0, step NewRound, no lock, no votes, no proposal.
    pub fn new(height: u64) -> (r: Self)
        ensures
            r.height == height,
            r.round == 0,
            r.step == ConsensusStep::NewRound,
            r.locked_value is None,
            r.locked_round is None,
            r.valid_value is None,
            r.valid_round is None,
            r.prevotes@.len() == 0,
            r.precommits@.len() == 0,
            r.proposal is None,
    {
        ConsensusState {
            height,
            round: 0,
            step: ConsensusStep::NewRound,
            locked_value: None,
            locked_round: None,
            valid_value: None,
            valid_round: None,
            prevotes: Vec::new(),
            precommits: Vec::new(),
            proposal: None,
        }
    }

    /// Moves to `new_round`: step NewRound, votes and proposal cleared, locks kept.
    pub fn advance_round(&mut self, new_round: u32)
        ensures
            final(self).height == old(self).height,
            final(self).round == new_round,
            final(self).step == ConsensusStep::NewRound,
            final(self).locked_value == old(self).locked_value,
            final(self).locked_round == old(self).locked_round,
            final(self).valid_value == old(self).valid_value,
            final(self).valid_round == old(self).valid_round,
            final(self).prevotes@.len() == 0,
            final(self).precommits@.len() == 0,
            final(self).proposal is None,
    {
        self.round = new_round;
        self.step = ConsensusStep::NewRound;
        self.prevotes.clear();
        self.precommits.clear();
        self.proposal = None;
    }
}

} // verus!

//! Double-sign detection: two different votes of one validator for the same height, round
//! and vote type are evidence for slashing.

use vstd::prelude::*;
use crate::primitives::{Hash32, Pubkey, Signature};
use crate::bft::types::ConsensusMessage;

verus! {

/// The type of a double-sign.
#[derive(Debug, Clone, Copy, PartialEq, Eq, Structural)]
pub enum EvidenceKind {
    /// Two different prevotes in one round.
    ConflictingPrevote,
    /// Two different precommits in one round.
    ConflictingPrecommit,
}

impl EvidenceKind {
    /// The kind's display name.
    pub fn name(&self) -> (r: &'static str)
        ensures
            *self is ConflictingPrevote ==> r@ == "ConflictingPrevote"@,
            *self is ConflictingPrecommit ==> r@ == "ConflictingPrecommit"@,
    {
        match self {
            EvidenceKind::ConflictingPrevote => "ConflictingPrevote",
            EvidenceKind::ConflictingPrecommit => "ConflictingPrecommit",
        }
    }
}

/// Evidence that a validator cast two conflicting votes.
#[derive(Debug, Clone, Copy)]
pub struct DoubleSignEvidence {
    /// The offending validator.
    pub validator: Pubkey,
    /// Height of the offense.
    pub height: u64,
    /// Round of the offense.
    pub round: u32,
    /// Which vote type conflicted.
    pub kind: EvidenceKind,
    /// The first vote seen: hash voted for and signature.
    pub vote_a: (Option<Hash32>, Signature),
    /// The conflicting vote.
    pub vote_b: (Option<Hash32>, Signature),
}

/// Prevote or precommit.
#[derive(Debug, Clone, Copy, PartialEq, Eq, Structural)]
pub enum VoteType {
    Prevote,
    Precommit,
}

/// What identifies a vote slot: one vote per validator, height, round and type.
#[derive(Debug, Clone, Copy)]
pub struct VoteKey {
    pub height: u64,
    pub round: u32,
    pub voter: Pubkey,
    pub kind: VoteType,
}

/// A recorded vote: the hash voted for and its signature.
#[derive(Debug, Clone, Copy)]
pub struct StoredVote {
    pub block_hash: Option<Hash32>,
    pub signature: Signature,
}

/// The vote slot and vote carried by a message; `None` for proposals.
pub open spec fn vote_of(msg: ConsensusMessage) -> Option<(VoteKey, StoredVote)> {
    match msg {
        ConsensusMessage::Prevote { height, round, block_hash, voter, signature } => Some((
            VoteKey { height, round, voter, kind: VoteType::Prevote },
            StoredVote { block_hash, signature },
        )),
        ConsensusMessage::Precommit { height, round, block_hash, voter, signature } => Some((
            VoteKey { height, round, voter, kind: VoteType::Precommit },
            StoredVote { block_hash, signature },
        )),
        ConsensusMessage::Proposal { .. } => None,
    }
}

/// The first index `>= i` of slot `key` in `votes`, or -1.
pub open spec fn slot_index(votes: Seq<(VoteKey, StoredVote)>, key: VoteKey, i: int) -> int
    decreases votes.len() - i,
{
    if i < 0 || i >= votes.len() {
        -1
    } else if votes[i].0 == key {
        i
    } else {
        slot_index(votes, key, i + 1)
    }
}

/// The evidence for a conflicting second vote in `key`'s slot.
pub open spec fn evidence_for(key: VoteKey, first: StoredVote, second: StoredVote) -> DoubleSignEvidence {
    DoubleSignEvidence {
        validator: key.voter,
        height: key.height,
        round: key.round,
        kind: match key.kind {
            VoteType::Prevote => EvidenceKind::ConflictingPrevote,
            VoteType::Precommit => EvidenceKind::ConflictingPrecommit,
        },
        vote_a: (first.block_hash, first.signature),
        vote_b: (second.block_hash, second.signature),
    }
}

/// The recorded votes, the evidence and the reported evidence after checking `msg`.
///
/// Proposals and votes below `min_height` change nothing. The first vote in a slot is
/// recorded; a later vote in the same slot for a different hash yields evidence pairing the
/// first vote with the new one; a repeat of the same vote changes nothing.
pub open spec fn record_outcome(
    votes: Seq<(VoteKey, StoredVote)>,
    evidence: Seq<DoubleSignEvidence>,
    min_height: u64,
    msg: ConsensusMessage,
) -> (Seq<(VoteKey, StoredVote)>, Seq<DoubleSignEvidence>, Option<DoubleSignEvidence>) {
    match vote_of(msg) {
        None => (votes, evidence, None),
        Some((key, vote)) => {
            let i = slot_index(votes, key, 0);
            if key.height < min_height {
                (votes, evidence, None)
            } else if i < 0 {
                (votes.push((key, vote)), evidence, None)
            } else if votes[i].1.block_hash != vote.block_hash {
                let ev = evidence_for(key, votes[i].1, vote);
                (votes, evidence.push(ev), Some(ev))
            } else {
                (votes, evidence, None)
            }
        },
    }
}

/// Collects first votes per slot and the evidence of conflicting ones.
#[derive(Debug)]
pub struct EvidenceCollector {
    votes: Vec<(VoteKey, StoredVote)>,
    evidence: Vec<DoubleSignEvidence>,
    min_height: u64,
}

fn vote_key_eq(a: &VoteKey, b: &VoteKey) -> (r: bool)
    ensures
        r == (*a == *b),
{
    a.height == b.height && a.round == b.round && a.kind == b.kind && a.voter == b.voter
}

fn opt_hash_eq(a: &Option<Hash32>, b: &Option<Hash32>) -> (r: bool)
    ensures
        r == (*a == *b),
{
    match (a, b) {
        (Some(x), Some(y)) => *x == *y,
        (None, None) => true,
        _ => false,
    }
}

impl EvidenceCollector {
    /// The first vote recorded in each slot, in arrival order.
    pub closed spec fn votes_view(&self) -> Seq<(VoteKey, StoredVote)> {
        self.votes@
    }

    /// The evidence collected so far.
    pub closed spec fn evidence_view(&self) -> Seq<DoubleSignEvidence> {
        self.evidence@
    }

    /// Votes below this height are ignored.
    pub closed spec fn min_height_view(&self) -> u64 {
        self.min_height
    }

    /// An empty collector.
    pub fn new() -> (r: Self)
        ensures
            r.votes_view().len() == 0,
            r.evidence_view().len() == 0,
            r.min_height_view() == 0,
    {
        EvidenceCollector { votes: Vec::new(), evidence: Vec::new(), min_height: 0 }
    }

    fn find_slot(&self, key: &VoteKey) -> (r: Option<usize>)
        ensures
            slot_index(self.votes@, *key, 0) < 0 <==> r is None,
            r matches Some(i) ==> i as int == slot_index(self.votes@, *key, 0) && i < self.votes@.len(),
    {
        let mut i: usize = 0;
        while i < self.votes.len()
            invariant
                0 <= i <= self.votes@.len(),
                slot_index(self.votes@, *key, 0) == slot_index(self.votes@, *key, i as int),
            decreases self.votes@.len() - i,
        {
            if vote_key_eq(&self.votes[i].0, key) {
                return Some(i);
            }
            i = i + 1;
        }
        None
    }

    /// Records a vote message and reports a double-sign.
    ///
    /// Proposals and votes below the tracked height are ignored. The first vote in a slot is
    /// recorded; a later vote in the same slot for a different hash yields (and stores)
    /// evidence pairing the first vote with the new one; a repeat of the same vote is ignored.
    pub fn check_and_record(&mut self, msg: &ConsensusMessage) -> (r: Option<DoubleSignEvidence>)
        ensures
            final(self).min_height_view() == old(self).min_height_view(),
            ({
                let out = record_outcome(old(self).votes_view(), old(self).evidence_view(), old(self).min_height_view(), *msg);
                &&& final(self).votes_view() == out.0
                &&& final(self).evidence_view() == out.1
                &&& r == out.2
            }),
    {
        let (key, current) = match msg {
            ConsensusMessage::Prevote { height, round, block_hash, voter, signature } => (
                VoteKey { height: *height, round: *round, voter: *voter, kind: VoteType::Prevote },
                StoredVote { block_hash: *block_hash, signature: *signature },
            ),
            ConsensusMessage::Precommit { height, round, block_hash, voter, signature } => (
                VoteKey { height: *height, round: *round, voter: *voter, kind: VoteType::Precommit },
                StoredVote { block_hash: *block_hash, signature: *signature },
            ),
            ConsensusMessage::Proposal { .. } => return None,
        };
        if key.height < self.min_height {
            return None;
        }
        match self.find_slot(&key) {
            Some(i) => {
                let existing = self.votes[i].1;
                if !opt_hash_eq(&existing.block_hash, &current.block_hash) {
                    let kind = match key.kind {
                        VoteType::Prevote => EvidenceKind::ConflictingPrevote,
                        VoteType::Precommit => EvidenceKind::ConflictingPrecommit,
                    };
                    let ev = DoubleSignEvidence {
                        validator: key.voter,
                        height: key.height,
                        round: key.round,
                        kind,
                        vote_a: (existing.block_hash, existing.signature),
                        vote_b: (current.block_hash, current.signature),
                    };
                    self.evidence.push(ev);
                    return Some(ev);
                }
                None
            },
            None => {
                self.votes.push((key, current));
                None
            },
        }
    }

    /// Drops the votes below `min_height` and ignores such votes from now on; evidence is kept.
    pub fn prune(&mut self, min_height: u64)
        ensures
            final(self).min_height_view() == min_height,
            final(self).votes_view() == old(self).votes_view().filter(
                |e: (VoteKey, StoredVote)| e.0.height >= min_height),
            final(self).evidence_view() == old(self).evidence_view(),
    {
        let ghost pred = |e: (VoteKey, StoredVote)| e.0.height >= min_height;
        let mut kept: Vec<(VoteKey, StoredVote)> = Vec::new();
        let mut i: usize = 0;
        while i < self.votes.len()
            invariant
                0 <= i <= self.votes@.len(),
                pred == (|e: (VoteKey, StoredVote)| e.0.height >= min_height),
                kept@ == self.votes@.take(i as int).filter(pred),
            decreases self.votes@.len() - i,
        {
            let e = self.votes[i];
            let ghost prefix = self.votes@.take(i as int);
            proof {
                reveal(Seq::filter);
                assert(self.votes@.take(i + 1) =~= prefix.push(e));
                assert(prefix.push(e).drop_last() =~= prefix);
            }
            if e.0.height >= min_height {
                kept.push(e);
            }
            i = i + 1;
        }
        proof {
            assert(self.votes@.take(self.votes@.len() as int) =~= self.votes@);
        }
        self.votes = kept;
        self.min_height = min_height;
    }

    /// All collected evidence.
    pub fn evidence(&self) -> (r: &[DoubleSignEvidence])
        ensures
            r@ == self.evidence_view(),
    {
        self.evidence.as_slice()
    }

    /// Takes all collected evidence, leaving none.
    pub fn drain_evidence(&mut self) -> (r: Vec<DoubleSignEvidence>)
        ensures
            r@ == old(self).evidence_view(),
            final(self).evidence_view().len() == 0,
            final(self).votes_view() == old(self).votes_view(),
            final(self).min_height_view() == old(self).min_height_view(),
    {
        let mut out: Vec<DoubleSignEvidence> = Vec::new();
        std::mem::swap(&mut out, &mut self.evidence);
        out
    }

    /// The number of recorded votes.
    pub fn tracked_votes(&self) -> (r: usize)
        ensures
            r == self.votes_view().len(),
    {
        self.votes.len()
    }

    /// Whether any evidence names `validator`.
    pub fn has_evidence_against(&self, validator: &Pubkey) -> (r: bool)
        ensures
            r == exists|i: int| 0 <= i < self.evidence_view().len() && #[trigger] self.evidence_view()[i].validator == *validator,
    {
        let mut i: usize = 0;
        while i < self.evidence.len()
            invariant
                0 <= i <= self.evidence@.len(),
                forall|j: int| 0 <= j < i ==> #[trigger] self.evidence@[j].validator != *validator,
            decreases self.evidence@.len() - i,
        {
            if self.evidence[i].validator == *validator {
                return true;
            }
            i = i + 1;
        }
        false
    }
}

impl Default for EvidenceCollector {
    fn default() -> (r: Self)
        ensures
            r.votes_view().len() == 0,
            r.evidence_view().len() == 0,
            r.min_height_view() == 0,
    {
        Self::new()
    }
}

} // verus!

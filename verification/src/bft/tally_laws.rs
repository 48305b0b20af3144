//! Laws of the vote tallies: they only ever hold votes of members of the validator set, so a
//! tally never has more entries than the set has validators.

use vstd::prelude::*;
use crate::primitives::{Hash32, Pubkey};
use crate::bft::engine::{
    ConsensusEngine, EngineOutput, EngineView, after_prevotes, accept_proposal, enter_round,
    precommit_step, prevote_step, proposal_step, timeout_step, timeout_view,
};
use crate::bft::step::ConsensusStep;
use crate::bft::types::{BlockView, ConsensusMessage};
use crate::bft::validator_set::{ValidatorInfo, last_index_of, position_of};
use crate::bft::votes::{lemma_voter_index, record_vote, voters_distinct};
use vstd::set_lib::lemma_len_subset;

verus! {

/// Every vote of the tally is by a member of `vs`.
pub open spec fn members_only(vs: Seq<ValidatorInfo>, votes: Seq<(Pubkey, Option<Hash32>)>) -> bool {
    forall|i: int| 0 <= i < votes.len() ==> position_of(vs, #[trigger] votes[i].0) >= 0
}

/// Both tallies of a round state hold only votes of members of `vs`.
pub open spec fn tallies_from_members(v: EngineView, vs: Seq<ValidatorInfo>) -> bool {
    &&& members_only(vs, v.prevotes)
    &&& members_only(vs, v.precommits)
}

proof fn lemma_record_member(vs: Seq<ValidatorInfo>, votes: Seq<(Pubkey, Option<Hash32>)>, voter: Pubkey, value: Option<Hash32>)
    requires
        members_only(vs, votes),
        position_of(vs, voter) >= 0,
    ensures
        members_only(vs, record_vote(votes, voter, value)),
{
    lemma_voter_index(votes, voter, 0);
    let r = record_vote(votes, voter, value);
    assert forall|i: int| 0 <= i < r.len() implies position_of(vs, #[trigger] r[i].0) >= 0 by {
        if i < votes.len() && r[i].0 != voter {
            assert(r[i] == votes[i]);
        }
    }
}

proof fn lemma_after_prevotes_members(v: EngineView, vs: Seq<ValidatorInfo>, quorum: int, id: Pubkey)
    requires
        tallies_from_members(v, vs),
        position_of(vs, id) >= 0,
    ensures
        tallies_from_members(after_prevotes(v, vs, quorum, id).0, vs),
{
    lemma_record_member(vs, v.precommits, id, None);
    if let Some(h) = crate::bft::votes::quorum_value(vs, v.prevotes, quorum) {
        lemma_record_member(vs, v.precommits, id, Some(h));
    }
}

proof fn lemma_accept_members(
    v: EngineView,
    vs: Seq<ValidatorInfo>,
    quorum: int,
    id: Pubkey,
    round: u32,
    block: BlockView,
    valid_round: Option<u32>,
)
    requires
        tallies_from_members(v, vs),
        position_of(vs, id) >= 0,
    ensures
        tallies_from_members(accept_proposal(v, vs, quorum, id, round, block, valid_round).0, vs),
{
    let v1 = if round > v.round { enter_round(v, round) } else { v };
    assert(tallies_from_members(v1, vs));
    let pv = crate::bft::engine::prevote_choice(v1.locked_value, v1.locked_round, crate::bft::engine::hash_of(block), valid_round);
    let v2 = EngineView { proposal: Some(block), step: ConsensusStep::Prevote, ..v1 };
    if !v1.sent_prevote {
        lemma_record_member(vs, v2.prevotes, id, pv);
        let v3 = EngineView { sent_prevote: true, prevotes: record_vote(v2.prevotes, id, pv), ..v2 };
        lemma_after_prevotes_members(v3, vs, quorum, id);
    }
}

proof fn lemma_timeout_members(v: EngineView, vs: Seq<ValidatorInfo>, id: Pubkey, step: ConsensusStep)
    requires
        tallies_from_members(v, vs),
        position_of(vs, id) >= 0,
    ensures
        tallies_from_members(timeout_view(v, id, step).0, vs),
{
    lemma_record_member(vs, v.prevotes, id, None);
    lemma_record_member(vs, v.precommits, id, None);
}

/// Handling a proposal, a prevote or a precommit keeps both tallies to votes of members of
/// the validator set, as long as the engine's own identity is a member (its own votes are
/// tallied too).
pub proof fn law_messages_tally_only_members(e0: ConsensusEngine, e1: ConsensusEngine, msg: ConsensusMessage, r: EngineOutput)
    requires
        tallies_from_members(e0@, e0.vs()@),
        position_of(e0.vs()@, e0.id()) >= 0,
        match msg {
            ConsensusMessage::Proposal { .. } => proposal_step(e0, e1, msg, r),
            ConsensusMessage::Prevote { .. } => prevote_step(e0, e1, msg, r),
            ConsensusMessage::Precommit { .. } => precommit_step(e0, e1, msg, r),
        },
    ensures
        tallies_from_members(e1@, e1.vs()@),
{
    let vs = e0.vs()@;
    match msg {
        ConsensusMessage::Proposal { round, block, valid_round, .. } => {
            lemma_accept_members(e0@, vs, e0.quorum(), e0.id(), round, block@, valid_round);
        },
        ConsensusMessage::Prevote { block_hash, voter, .. } => {
            if position_of(vs, voter) >= 0 {
                lemma_record_member(vs, e0@.prevotes, voter, block_hash);
                let v1 = EngineView { prevotes: record_vote(e0@.prevotes, voter, block_hash), ..e0@ };
                lemma_after_prevotes_members(v1, vs, e0.quorum(), e0.id());
            }
        },
        ConsensusMessage::Precommit { block_hash, voter, .. } => {
            if position_of(vs, voter) >= 0 {
                lemma_record_member(vs, e0@.precommits, voter, block_hash);
            }
        },
    }
}

/// Handling a timeout keeps both tallies to votes of members, as long as the engine's own
/// identity is a member.
pub proof fn law_timeouts_tally_only_members(e0: ConsensusEngine, e1: ConsensusEngine, step: ConsensusStep, r: EngineOutput)
    requires
        tallies_from_members(e0@, e0.vs()@),
        position_of(e0.vs()@, e0.id()) >= 0,
        timeout_step(e0, e1, step, r),
    ensures
        tallies_from_members(e1@, e1.vs()@),
{
    lemma_timeout_members(e0@, e0.vs()@, e0.id(), step);
}

proof fn lemma_position_found(vs: Seq<ValidatorInfo>, k: Pubkey, n: int)
    requires
        0 <= n <= vs.len(),
    ensures
        last_index_of(vs, k, n) >= 0 ==> last_index_of(vs, k, n) < n && vs[last_index_of(vs, k, n)].pubkey == k,
    decreases n,
{
    if n > 0 {
        lemma_position_found(vs, k, n - 1);
    }
}

/// A tally of distinct voters, all members of `vs`, has at most as many votes as `vs` has
/// validators.
pub proof fn law_tally_within_validator_count(vs: Seq<ValidatorInfo>, votes: Seq<(Pubkey, Option<Hash32>)>)
    requires
        voters_distinct(votes),
        members_only(vs, votes),
    ensures
        votes.len() <= vs.len(),
{
    let voters = votes.map_values(|v: (Pubkey, Option<Hash32>)| v.0);
    let keys = vs.map_values(|v: ValidatorInfo| v.pubkey);
    assert(voters.no_duplicates()) by {
        assert forall|i: int, j: int| 0 <= i < voters.len() && 0 <= j < voters.len() && i != j implies voters[i] != voters[j] by {
            if i < j {
                assert(votes[i].0 != votes[j].0);
            } else {
                assert(votes[j].0 != votes[i].0);
            }
        }
    }
    voters.unique_seq_to_set();
    keys.lemma_cardinality_of_set();
    assert(voters.to_set().subset_of(keys.to_set())) by {
        assert forall|k: Pubkey| voters.to_set().contains(k) implies keys.to_set().contains(k) by {
            let i = choose|i: int| 0 <= i < voters.len() && voters[i] == k;
            assert(position_of(vs, votes[i].0) >= 0);
            lemma_position_found(vs, k, vs.len() as int);
            let p = position_of(vs, k);
            assert(keys[p] == k);
        }
    }
    lemma_len_subset(voters.to_set(), keys.to_set());
}

} // verus!

//! Laws of the consensus rules: quorums are unique, locks need a polka, a validator votes
//! once per step and round, and double-sign evidence only names conflicting votes.

use vstd::prelude::*;
use crate::primitives::{Hash32, Pubkey};
use crate::bft::engine::{
    ConsensusEngine, EngineOutput, EngineView, after_prevotes, accept_proposal, hash_of, prevote_choice,
    proposal_accepted, proposal_step, timeout_view,
};
use crate::bft::evidence::VoteType;
use crate::bft::types::ConsensusMessage;
use crate::bft::evidence::{DoubleSignEvidence, StoredVote, VoteKey, record_outcome, slot_index, vote_of};
use crate::bft::step::ConsensusStep;
use crate::bft::validator_set::{ValidatorInfo, last_index_of, position_of, quorum_spec, stake_of_spec, stake_sum};
use crate::bft::votes::{quorum_value, quorum_value_from, total_weight, vote_weight, voters_distinct};

verus! {

/// How many votes in `votes` are by `voter`.
pub open spec fn votes_by(votes: Seq<(Pubkey, Option<Hash32>)>, voter: Pubkey) -> nat
    decreases votes.len(),
{
    if votes.len() == 0 {
        0
    } else {
        votes_by(votes.drop_last(), voter) + if votes.last().0 == voter { 1nat } else { 0nat }
    }
}

proof fn lemma_weights_disjoint(vs: Seq<ValidatorInfo>, votes: Seq<(Pubkey, Option<Hash32>)>, a: Option<Hash32>, b: Option<Hash32>)
    requires
        a != b,
    ensures
        vote_weight(vs, votes, a) + vote_weight(vs, votes, b) <= total_weight(vs, votes),
        vote_weight(vs, votes, a) >= 0,
    decreases votes.len(),
{
    if votes.len() > 0 {
        lemma_weights_disjoint(vs, votes.drop_last(), a, b);
    }
}

/// With one vote per voter, a voter has at most one vote, and none exactly when absent.
pub proof fn lemma_votes_by_distinct(votes: Seq<(Pubkey, Option<Hash32>)>, voter: Pubkey)
    requires
        voters_distinct(votes),
    ensures
        votes_by(votes, voter) <= 1,
        votes_by(votes, voter) == 0 <==> forall|i: int| 0 <= i < votes.len() ==> votes[i].0 != voter,
    decreases votes.len(),
{
    if votes.len() > 0 {
        let d = votes.drop_last();
        assert(voters_distinct(d)) by {
            assert forall|i: int, j: int| 0 <= i < j < d.len() implies d[i].0 != d[j].0 by {
                assert(d[i] == votes[i] && d[j] == votes[j]);
            }
        }
        lemma_votes_by_distinct(d, voter);
        if votes.last().0 == voter {
            assert forall|i: int| 0 <= i < d.len() implies d[i].0 != voter by {
                assert(votes[i].0 != votes[votes.len() - 1].0);
            }
        }
        assert forall|i: int| 0 <= i < votes.len() && votes_by(votes, voter) == 0 implies votes[i].0 != voter by {
            if i < d.len() {
                assert(d[i] == votes[i]);
            }
        }
        if votes_by(votes, voter) != 0 {
            if votes.last().0 != voter {
                let i = choose|i: int| 0 <= i < d.len() && d[i].0 == voter;
                assert(votes[i] == d[i]);
            }
        }
    }
}

proof fn lemma_last_index_shift(vs: Seq<ValidatorInfo>, k: Pubkey, m: int)
    requires
        vs.len() > 0,
        1 <= m <= vs.len(),
    ensures
        last_index_of(vs, k, m) == (if last_index_of(vs.drop_first(), k, m - 1) >= 0 {
            last_index_of(vs.drop_first(), k, m - 1) + 1
        } else if vs[0].pubkey == k {
            0
        } else {
            -1
        }),
    decreases m,
{
    reveal_with_fuel(last_index_of, 2);
    if m > 1 {
        assert(vs[m - 1] == vs.drop_first()[m - 2]);
        lemma_last_index_shift(vs, k, m - 1);
    }
}

/// The stake recorded for a key is at most its stake in the rest of the set, plus the first
/// entry's stake when the first entry has that key.
pub proof fn lemma_stake_of_split(vs: Seq<ValidatorInfo>, k: Pubkey)
    requires
        vs.len() > 0,
    ensures
        stake_of_spec(vs, k) <= stake_of_spec(vs.drop_first(), k) + if vs[0].pubkey == k { vs[0].stake as int } else { 0 },
{
    lemma_last_index_shift(vs, k, vs.len() as int);
    let r = vs.drop_first();
    let j = last_index_of(r, k, r.len() as int);
    if j >= 0 {
        lemma_last_index_in_range(r, k, r.len() as int);
        assert(vs[j + 1] == r[j]);
    }
}

proof fn lemma_last_index_in_range(s: Seq<ValidatorInfo>, k: Pubkey, n: int)
    requires
        n <= s.len(),
    ensures
        -1 <= last_index_of(s, k, n) < if n > 0 { n } else { 0 },
    decreases n,
{
    if n > 0 {
        lemma_last_index_in_range(s, k, n - 1);
    }
}

proof fn lemma_total_weight_split(vs: Seq<ValidatorInfo>, votes: Seq<(Pubkey, Option<Hash32>)>)
    requires
        vs.len() > 0,
    ensures
        total_weight(vs, votes) <= total_weight(vs.drop_first(), votes) + vs[0].stake * votes_by(votes, vs[0].pubkey),
    decreases votes.len(),
{
    if votes.len() > 0 {
        lemma_total_weight_split(vs, votes.drop_last());
        lemma_stake_of_split(vs, votes.last().0);
        let c = votes_by(votes.drop_last(), vs[0].pubkey);
        assert(vs[0].stake * (c + 1) == vs[0].stake * c + vs[0].stake) by (nonlinear_arith);
    }
}

proof fn lemma_total_weight_empty_set(vs: Seq<ValidatorInfo>, votes: Seq<(Pubkey, Option<Hash32>)>)
    requires
        vs.len() == 0,
    ensures
        total_weight(vs, votes) == 0,
    decreases votes.len(),
{
    if votes.len() > 0 {
        lemma_total_weight_empty_set(vs, votes.drop_last());
    }
}

/// With one vote per voter, the stake behind a tally never exceeds the stake of the set.
pub proof fn lemma_total_weight_within_stake(vs: Seq<ValidatorInfo>, votes: Seq<(Pubkey, Option<Hash32>)>)
    requires
        voters_distinct(votes),
    ensures
        total_weight(vs, votes) <= stake_sum(vs),
    decreases vs.len(),
{
    if vs.len() == 0 {
        lemma_total_weight_empty_set(vs, votes);
    } else {
        lemma_total_weight_split(vs, votes);
        lemma_votes_by_distinct(votes, vs[0].pubkey);
        lemma_total_weight_within_stake(vs.drop_first(), votes);
        let c = votes_by(votes, vs[0].pubkey);
        assert(vs[0].stake * c <= vs[0].stake) by (nonlinear_arith)
            requires
                c <= 1,
                vs[0].stake >= 0,
        ;
    }
}

/// Quorum intersection: when a quorum is more than half the stake and each validator votes
/// once, no two different values both gather a quorum in one tally.
pub proof fn law_at_most_one_quorum_value(
    vs: Seq<ValidatorInfo>,
    votes: Seq<(Pubkey, Option<Hash32>)>,
    quorum: int,
    a: Option<Hash32>,
    b: Option<Hash32>,
)
    requires
        voters_distinct(votes),
        2 * quorum > stake_sum(vs),
        a != b,
    ensures
        !(vote_weight(vs, votes, a) >= quorum && vote_weight(vs, votes, b) >= quorum),
{
    lemma_weights_disjoint(vs, votes, a, b);
    lemma_total_weight_within_stake(vs, votes);
}

/// A finality threshold above one half makes every quorum more than half the total stake.
pub proof fn law_quorum_more_than_half(total: int, threshold_ppm: int)
    requires
        0 <= total <= u64::MAX,
        500_000 < threshold_ppm <= 1_000_000,
    ensures
        2 * quorum_spec(total, threshold_ppm) > total,
{
    let tp = total * threshold_ppm;
    let num = tp + 999_999;
    let q = num / 1_000_000;
    vstd::arithmetic::div_mod::lemma_fundamental_div_mod(num, 1_000_000);
    vstd::arithmetic::div_mod::lemma_mod_bound(num, 1_000_000);
    assert(tp >= total * 500_000 && tp <= total * 1_000_000) by (nonlinear_arith)
        requires
            tp == total * threshold_ppm,
            0 <= total,
            500_000 < threshold_ppm <= 1_000_000,
    ;
    assert(total > 0 ==> tp > total * 500_000) by (nonlinear_arith)
        requires
            tp == total * threshold_ppm,
            0 <= total,
            500_000 < threshold_ppm,
    ;
    assert(q * 1_000_000 >= tp);
    assert(q <= total);
}

proof fn lemma_quorum_value_from(vs: Seq<ValidatorInfo>, votes: Seq<(Pubkey, Option<Hash32>)>, quorum: int, i: int)
    ensures
        quorum_value_from(vs, votes, quorum, i) matches Some(h) ==> vote_weight(vs, votes, Some(h)) >= quorum,
    decreases votes.len() - i,
{
    if 0 <= i < votes.len() {
        lemma_quorum_value_from(vs, votes, quorum, i + 1);
    }
}

/// The value a tally settles on has a quorum behind it.
pub proof fn law_quorum_value_has_quorum(vs: Seq<ValidatorInfo>, votes: Seq<(Pubkey, Option<Hash32>)>, quorum: int)
    ensures
        quorum_value(vs, votes, quorum) matches Some(h) ==> vote_weight(vs, votes, Some(h)) >= quorum,
{
    lemma_quorum_value_from(vs, votes, quorum, 0);
}

/// A validator only locks on a value with a polka: whenever reacting to the prevotes changes
/// the lock, the new lock is the value with a quorum of prevotes in the current round.
pub proof fn law_lock_needs_polka(v: EngineView, vs: Seq<ValidatorInfo>, quorum: int, id: Pubkey)
    ensures
        ({
            let after = after_prevotes(v, vs, quorum, id).0;
            (after.locked_value != v.locked_value || after.locked_round != v.locked_round) ==> {
                &&& after.locked_value == quorum_value(vs, v.prevotes, quorum)
                &&& after.locked_value matches Some(h) && vote_weight(vs, v.prevotes, Some(h)) >= quorum
                &&& after.locked_round == Some(v.round)
            }
        }),
{
    law_quorum_value_has_quorum(vs, v.prevotes, quorum);
}

/// A validator precommits at most once per round: reacting to prevotes sends a precommit only
/// if none was sent in the round, and then marks it sent.
pub proof fn law_one_precommit_per_round(v: EngineView, vs: Seq<ValidatorInfo>, quorum: int, id: Pubkey)
    ensures
        ({
            let (after, out) = after_prevotes(v, vs, quorum, id);
            &&& out.len() <= 1
            &&& out.len() == 1 ==> !v.sent_precommit && after.sent_precommit
            &&& v.sent_precommit ==> out.len() == 0 && after.sent_precommit
            &&& after.round == v.round && after.height == v.height
        }),
{
}

/// A validator prevotes at most once per round: accepting a proposal in the current round
/// sends a prevote only if none was sent, and a propose timeout likewise.
pub proof fn law_one_prevote_per_round(
    v: EngineView,
    vs: Seq<ValidatorInfo>,
    quorum: int,
    id: Pubkey,
    block: crate::bft::types::BlockView,
    valid_round: Option<u32>,
)
    ensures
        ({
            let (after, out) = accept_proposal(v, vs, quorum, id, v.round, block, valid_round);
            v.sent_prevote ==> out.len() == 0 && after.sent_prevote && after.prevotes == v.prevotes
        }),
        ({
            let (after, out) = timeout_view(v, id, ConsensusStep::Propose);
            &&& v.sent_prevote ==> out.len() == 0 && after.prevotes == v.prevotes
            &&& out.len() <= 1
        }),
{
}

/// Double-sign evidence only names conflicting votes: when checking a vote yields evidence,
/// an earlier vote in the same slot (height, round, voter, kind) named a different hash, and
/// the evidence pairs that vote with the new one.
pub proof fn law_evidence_only_for_conflicts(
    votes: Seq<(VoteKey, StoredVote)>,
    evidence: Seq<DoubleSignEvidence>,
    min_height: u64,
    msg: crate::bft::types::ConsensusMessage,
)
    ensures
        record_outcome(votes, evidence, min_height, msg).2 matches Some(ev) ==> ({
            let (key, vote) = vote_of(msg)->Some_0;
            let i = slot_index(votes, key, 0);
            &&& 0 <= i < votes.len()
            &&& votes[i].0 == key
            &&& votes[i].1.block_hash != vote.block_hash
            &&& ev.validator == key.voter && ev.height == key.height && ev.round == key.round
            &&& ev.vote_a.0 == votes[i].1.block_hash
            &&& ev.vote_b.0 == vote.block_hash
            &&& key.height >= min_height
        }),
        record_outcome(votes, evidence, min_height, msg).1.len() <= evidence.len() + 1,
{
    if vote_of(msg) is Some {
        let (key, vote) = vote_of(msg)->Some_0;
        lemma_slot_index(votes, key, 0);
    }
}

proof fn lemma_slot_index(votes: Seq<(VoteKey, StoredVote)>, key: VoteKey, i: int)
    requires
        0 <= i,
    ensures
        slot_index(votes, key, i) >= 0 ==> i <= slot_index(votes, key, i) < votes.len() && votes[slot_index(votes, key, i)].0 == key,
        slot_index(votes, key, i) >= -1,
    decreases votes.len() - i,
{
    if i < votes.len() {
        lemma_slot_index(votes, key, i + 1);
    }
}


/// The lock rule: the prevote on a proposal is nil or the proposal; a validator without a lock,
/// or locked on the proposal itself, prevotes the proposal; one locked on another value
/// prevotes the proposal exactly when the proposal carries a polka round at or after its lock
/// round, and otherwise nil, so a polka older than the lock never moves it.
pub proof fn law_prevote_respects_lock(
    locked_value: Option<Hash32>,
    locked_round: Option<u32>,
    proposal: Hash32,
    valid_round: Option<u32>,
)
    ensures
        ({
            let pv = prevote_choice(locked_value, locked_round, proposal, valid_round);
            &&& pv is None || pv == Some(proposal)
            &&& locked_value is None ==> pv == Some(proposal)
            &&& locked_value == Some(proposal) ==> pv == Some(proposal)
            &&& (locked_value is Some && locked_value != Some(proposal)) ==> (pv == Some(proposal)
                <==> (valid_round is Some && locked_round is Some && valid_round->0 >= locked_round->0))
            &&& (locked_value is Some && locked_value != Some(proposal) && locked_round is Some
                && valid_round is Some && valid_round->0 < locked_round->0) ==> pv is None
        }),
{
}

/// A locked engine does not prevote a different block on an older polka: when it is locked on
/// one value and handles a proposal for another block that claims no polka round, or one
/// before its lock round, every prevote it sends in response is nil.
pub proof fn law_lock_holds_against_older_polka(
    e0: ConsensusEngine,
    e1: ConsensusEngine,
    proposal: ConsensusMessage,
    r: EngineOutput,
)
    requires
        proposal_step(e0, e1, proposal, r),
        proposal is Proposal,
        e0@.locked_value is Some,
        e0@.locked_value != Some(hash_of(proposal->Proposal_block@)),
        !(proposal->Proposal_valid_round is Some && e0@.locked_round is Some
            && proposal->Proposal_valid_round->0 >= e0@.locked_round->0),
    ensures
        forall|i: int|
            0 <= i < r.messages@.len() && #[trigger] r.messages@[i] is Prevote
                ==> r.messages@[i]->Prevote_block_hash is None,
{
    if let ConsensusMessage::Proposal { height, round, block, proposer, valid_round, .. } = proposal {
        if proposal_accepted(e0@, e0.vs()@, height, round, proposer) {
            let (v, ds) = accept_proposal(e0@, e0.vs()@, e0.quorum(), e0.id(), round, block@, valid_round);
            assert forall|i: int|
                0 <= i < r.messages@.len() && #[trigger] r.messages@[i] is Prevote
                    implies r.messages@[i]->Prevote_block_hash is None by {
                assert(crate::bft::engine::describes(r.messages@[i], ds[i]));
                assert(ds[i].kind == VoteType::Prevote);
                if i > 0 {
                    let v1 = if round > e0@.round { crate::bft::engine::enter_round(e0@, round) } else { e0@ };
                    let pv = prevote_choice(v1.locked_value, v1.locked_round, hash_of(block@), valid_round);
                    let v2 = EngineView { proposal: Some(block@), step: ConsensusStep::Prevote, ..v1 };
                    let v3 = EngineView { sent_prevote: true, prevotes: crate::bft::votes::record_vote(v2.prevotes, e0.id(), pv), ..v2 };
                    let outs = after_prevotes(v3, e0.vs()@, e0.quorum(), e0.id()).1;
                    assert(ds[i] == outs[i - 1]);
                    assert(outs[i - 1].kind == VoteType::Precommit);
                }
            }
        }
    }
}

} // verus!

//! Accountability of conflicting quorums: two tallies of one round that give different
//! values a quorum are only possible if validators holding a large share of the stake voted
//! for both, and each of those votes is double-sign evidence.

use vstd::prelude::*;
use crate::primitives::{Hash32, Pubkey};
use crate::bft::laws::{lemma_stake_of_split, lemma_votes_by_distinct, votes_by};
use crate::bft::validator_set::{ValidatorInfo, quorum_spec, stake_sum};
use crate::bft::votes::{vote_weight, voters_distinct};

verus! {

/// How many votes in `votes` are by `voter` for `value`.
pub open spec fn votes_for(votes: Seq<(Pubkey, Option<Hash32>)>, voter: Pubkey, value: Option<Hash32>) -> nat
    decreases votes.len(),
{
    if votes.len() == 0 {
        0
    } else {
        votes_for(votes.drop_last(), voter, value) + if votes.last().0 == voter && votes.last().1 == value {
            1nat
        } else {
            0nat
        }
    }
}

/// The stake of the validators of `vs` that voted `a` in the tally `t1` and `b` in the
/// tally `t2`.
pub open spec fn double_vote_stake(
    vs: Seq<ValidatorInfo>,
    t1: Seq<(Pubkey, Option<Hash32>)>,
    a: Option<Hash32>,
    t2: Seq<(Pubkey, Option<Hash32>)>,
    b: Option<Hash32>,
) -> int
    decreases vs.len(),
{
    if vs.len() == 0 {
        0
    } else {
        (if votes_for(t1, vs[0].pubkey, a) > 0 && votes_for(t2, vs[0].pubkey, b) > 0 { vs[0].stake as int } else { 0 })
            + double_vote_stake(vs.drop_first(), t1, a, t2, b)
    }
}

proof fn lemma_votes_for_within_votes_by(votes: Seq<(Pubkey, Option<Hash32>)>, voter: Pubkey, value: Option<Hash32>)
    ensures
        votes_for(votes, voter, value) <= votes_by(votes, voter),
    decreases votes.len(),
{
    if votes.len() > 0 {
        lemma_votes_for_within_votes_by(votes.drop_last(), voter, value);
    }
}

proof fn lemma_vote_weight_split(vs: Seq<ValidatorInfo>, votes: Seq<(Pubkey, Option<Hash32>)>, value: Option<Hash32>)
    requires
        vs.len() > 0,
    ensures
        vote_weight(vs, votes, value) <= vote_weight(vs.drop_first(), votes, value) + vs[0].stake * votes_for(
            votes,
            vs[0].pubkey,
            value,
        ),
    decreases votes.len(),
{
    if votes.len() > 0 {
        lemma_vote_weight_split(vs, votes.drop_last(), value);
        lemma_stake_of_split(vs, votes.last().0);
        let c = votes_for(votes.drop_last(), vs[0].pubkey, value);
        assert(vs[0].stake * (c + 1) == vs[0].stake * c + vs[0].stake) by (nonlinear_arith);
    }
}

proof fn lemma_vote_weight_empty_set(vs: Seq<ValidatorInfo>, votes: Seq<(Pubkey, Option<Hash32>)>, value: Option<Hash32>)
    requires
        vs.len() == 0,
    ensures
        vote_weight(vs, votes, value) == 0,
    decreases votes.len(),
{
    if votes.len() > 0 {
        lemma_vote_weight_empty_set(vs, votes.drop_last(), value);
    }
}

proof fn lemma_weights_within_double_votes(
    vs: Seq<ValidatorInfo>,
    t1: Seq<(Pubkey, Option<Hash32>)>,
    a: Option<Hash32>,
    t2: Seq<(Pubkey, Option<Hash32>)>,
    b: Option<Hash32>,
)
    requires
        voters_distinct(t1),
        voters_distinct(t2),
    ensures
        vote_weight(vs, t1, a) + vote_weight(vs, t2, b) <= stake_sum(vs) + double_vote_stake(vs, t1, a, t2, b),
    decreases vs.len(),
{
    if vs.len() == 0 {
        lemma_vote_weight_empty_set(vs, t1, a);
        lemma_vote_weight_empty_set(vs, t2, b);
    } else {
        let k = vs[0].pubkey;
        lemma_vote_weight_split(vs, t1, a);
        lemma_vote_weight_split(vs, t2, b);
        lemma_weights_within_double_votes(vs.drop_first(), t1, a, t2, b);
        lemma_votes_for_within_votes_by(t1, k, a);
        lemma_votes_for_within_votes_by(t2, k, b);
        lemma_votes_by_distinct(t1, k);
        lemma_votes_by_distinct(t2, k);
        let x = votes_for(t1, k, a);
        let y = votes_for(t2, k, b);
        let st = vs[0].stake as int;
        assert(st * x + st * y <= st + (if x > 0 && y > 0 { st } else { 0 })) by (nonlinear_arith)
            requires
                0 <= x <= 1,
                0 <= y <= 1,
                0 <= st,
        ;
    }
}

/// Two tallies of one round over the same validator set, each giving its value a quorum:
/// the validators that voted for both values hold at least `2 * quorum - total` of the
/// stake.
pub proof fn law_conflicting_quorums_need_double_votes(
    vs: Seq<ValidatorInfo>,
    t1: Seq<(Pubkey, Option<Hash32>)>,
    a: Option<Hash32>,
    t2: Seq<(Pubkey, Option<Hash32>)>,
    b: Option<Hash32>,
    quorum: int,
)
    requires
        voters_distinct(t1),
        voters_distinct(t2),
        vote_weight(vs, t1, a) >= quorum,
        vote_weight(vs, t2, b) >= quorum,
    ensures
        double_vote_stake(vs, t1, a, t2, b) >= 2 * quorum - stake_sum(vs),
{
    lemma_weights_within_double_votes(vs, t1, a, t2, b);
}

/// A finality threshold of at least two thirds makes `2 * quorum - total` more than a third of
/// a nonzero total stake: conflicting quorums need more than a third of the stake to vote twice.
pub proof fn law_two_thirds_quorum_overlap(total: int, threshold_ppm: int)
    requires
        0 < total <= u64::MAX,
        666_667 <= threshold_ppm <= 1_000_000,
    ensures
        3 * (2 * quorum_spec(total, threshold_ppm) - total) > total,
{
    let tp = total * threshold_ppm;
    let num = tp + 999_999;
    let q = num / 1_000_000;
    vstd::arithmetic::div_mod::lemma_fundamental_div_mod(num, 1_000_000);
    vstd::arithmetic::div_mod::lemma_mod_bound(num, 1_000_000);
    assert(tp >= total * 666_667 && tp <= total * 1_000_000) by (nonlinear_arith)
        requires
            tp == total * threshold_ppm,
            0 < total,
            666_667 <= threshold_ppm <= 1_000_000,
    ;
    assert(q * 1_000_000 >= tp);
    assert(q <= total);
}

} // verus!

//! Vote tallies: one vote per voter, weighted by the voters' stakes.

use vstd::prelude::*;
use crate::primitives::{Hash32, Pubkey};
use crate::bft::validator_set::{ValidatorInfo, ValidatorSet, stake_of_spec};

verus! {

/// The first index `>= i` holding a vote of `voter`, or -1.
pub open spec fn voter_index(votes: Seq<(Pubkey, Option<Hash32>)>, voter: Pubkey, i: int) -> int
    decreases votes.len() - i,
{
    if i < 0 || i >= votes.len() {
        -1
    } else if votes[i].0 == voter {
        i
    } else {
        voter_index(votes, voter, i + 1)
    }
}

/// The tally after `voter` votes `value`: it replaces the voter's earlier vote, or is appended.
pub open spec fn record_vote(votes: Seq<(Pubkey, Option<Hash32>)>, voter: Pubkey, value: Option<Hash32>) -> Seq<(Pubkey, Option<Hash32>)> {
    let i = voter_index(votes, voter, 0);
    if i >= 0 {
        votes.update(i, (voter, value))
    } else {
        votes.push((voter, value))
    }
}

/// No voter appears twice.
pub open spec fn voters_distinct(votes: Seq<(Pubkey, Option<Hash32>)>) -> bool {
    forall|i: int, j: int| 0 <= i < j < votes.len() ==> votes[i].0 != votes[j].0
}

/// The stake behind the votes for `value` (`None` = nil), each voter weighted by its stake
/// in the validator set (0 for non-members).
pub open spec fn vote_weight(vs: Seq<ValidatorInfo>, votes: Seq<(Pubkey, Option<Hash32>)>, value: Option<Hash32>) -> int
    decreases votes.len(),
{
    if votes.len() == 0 {
        0
    } else {
        vote_weight(vs, votes.drop_last(), value) + if votes.last().1 == value {
            stake_of_spec(vs, votes.last().0) as int
        } else {
            0
        }
    }
}

/// The stake behind all votes, whatever their value.
pub open spec fn total_weight(vs: Seq<ValidatorInfo>, votes: Seq<(Pubkey, Option<Hash32>)>) -> int
    decreases votes.len(),
{
    if votes.len() == 0 {
        0
    } else {
        total_weight(vs, votes.drop_last()) + stake_of_spec(vs, votes.last().0) as int
    }
}

/// The first non-nil value, scanning the votes from index `i`, whose weight reaches `quorum`.
pub open spec fn quorum_value_from(vs: Seq<ValidatorInfo>, votes: Seq<(Pubkey, Option<Hash32>)>, quorum: int, i: int) -> Option<Hash32>
    decreases votes.len() - i,
{
    if i < 0 || i >= votes.len() {
        None
    } else if votes[i].1 is Some && vote_weight(vs, votes, votes[i].1) >= quorum {
        votes[i].1
    } else {
        quorum_value_from(vs, votes, quorum, i + 1)
    }
}

/// The non-nil value with a quorum of votes, if any (the first such in vote order).
pub open spec fn quorum_value(vs: Seq<ValidatorInfo>, votes: Seq<(Pubkey, Option<Hash32>)>, quorum: int) -> Option<Hash32> {
    quorum_value_from(vs, votes, quorum, 0)
}

/// Compares two optional hashes.
pub fn opt_hash_eq(a: &Option<Hash32>, b: &Option<Hash32>) -> (r: bool)
    ensures
        r == (*a == *b),
{
    match (a, b) {
        (Some(x), Some(y)) => *x == *y,
        (None, None) => true,
        _ => false,
    }
}

/// Records `voter`'s vote, replacing an earlier one.
pub fn record(votes: &mut Vec<(Pubkey, Option<Hash32>)>, voter: Pubkey, value: Option<Hash32>)
    ensures
        final(votes)@ == record_vote(old(votes)@, voter, value),
{
    let mut i: usize = 0;
    while i < votes.len()
        invariant
            0 <= i <= votes@.len(),
            votes@ == old(votes)@,
            voter_index(votes@, voter, 0) == voter_index(votes@, voter, i as int),
        decreases votes@.len() - i,
    {
        if votes[i].0 == voter {
            votes.set(i, (voter, value));
            return;
        }
        i = i + 1;
    }
    votes.push((voter, value));
}

/// Recording a vote keeps voters distinct.
pub proof fn lemma_record_distinct(votes: Seq<(Pubkey, Option<Hash32>)>, voter: Pubkey, value: Option<Hash32>)
    requires
        voters_distinct(votes),
    ensures
        voters_distinct(record_vote(votes, voter, value)),
{
    lemma_voter_index(votes, voter, 0);
}

/// `voter_index` finds `voter`, or tells that it is absent from the rest.
pub proof fn lemma_voter_index(votes: Seq<(Pubkey, Option<Hash32>)>, voter: Pubkey, i: int)
    requires
        0 <= i,
    ensures
        voter_index(votes, voter, i) >= 0 ==> i <= voter_index(votes, voter, i) < votes.len()
            && votes[voter_index(votes, voter, i)].0 == voter,
        voter_index(votes, voter, i) < 0 ==> forall|j: int| i <= j < votes.len() ==> votes[j].0 != voter,
        voter_index(votes, voter, i) >= -1,
    decreases votes.len() - i,
{
    if i < votes.len() {
        lemma_voter_index(votes, voter, i + 1);
    }
}

/// The weight of the votes for `value`, summed in 128 bits.
pub fn weight_of(vs: &ValidatorSet, votes: &Vec<(Pubkey, Option<Hash32>)>, value: &Option<Hash32>) -> (r: u128)
    ensures
        r == vote_weight(vs@, votes@, *value),
{
    let mut acc: u128 = 0;
    let mut i: usize = 0;
    while i < votes.len()
        invariant
            0 <= i <= votes@.len(),
            acc == vote_weight(vs@, votes@.take(i as int), *value),
            acc <= i * 0xffff_ffff_ffff_ffffu128,
        decreases votes@.len() - i,
    {
        proof {
            assert(votes@.take(i + 1).drop_last() =~= votes@.take(i as int));
        }
        if opt_hash_eq(&votes[i].1, value) {
            let s = vs.stake_of(&votes[i].0);
            assert(acc + s <= (i + 1) * 0xffff_ffff_ffff_ffffu128) by (nonlinear_arith)
                requires
                    acc <= i * 0xffff_ffff_ffff_ffffu128,
                    s <= 0xffff_ffff_ffff_ffffu128,
            ;
            assert((i + 1) * 0xffff_ffff_ffff_ffffu128 <= 0xffff_ffff_ffff_ffff_ffff_ffff_ffff_ffffu128) by (nonlinear_arith)
                requires
                    i < 0xffff_ffff_ffff_ffffu128,
            ;
            acc = acc + s as u128;
        } else {
            assert(acc <= (i + 1) * 0xffff_ffff_ffff_ffffu128) by (nonlinear_arith)
                requires
                    acc <= i * 0xffff_ffff_ffff_ffffu128,
            ;
        }
        i = i + 1;
    }
    proof {
        assert(votes@.take(votes@.len() as int) =~= votes@);
    }
    acc
}

/// The weight of all votes, summed in 128 bits.
pub fn total_weight_of(vs: &ValidatorSet, votes: &Vec<(Pubkey, Option<Hash32>)>) -> (r: u128)
    ensures
        r == total_weight(vs@, votes@),
{
    let mut acc: u128 = 0;
    let mut i: usize = 0;
    while i < votes.len()
        invariant
            0 <= i <= votes@.len(),
            acc == total_weight(vs@, votes@.take(i as int)),
            acc <= i * 0xffff_ffff_ffff_ffffu128,
        decreases votes@.len() - i,
    {
        proof {
            assert(votes@.take(i + 1).drop_last() =~= votes@.take(i as int));
        }
        let s = vs.stake_of(&votes[i].0);
        assert(acc + s <= (i + 1) * 0xffff_ffff_ffff_ffffu128) by (nonlinear_arith)
            requires
                acc <= i * 0xffff_ffff_ffff_ffffu128,
                s <= 0xffff_ffff_ffff_ffffu128,
        ;
        assert((i + 1) * 0xffff_ffff_ffff_ffffu128 <= 0xffff_ffff_ffff_ffff_ffff_ffff_ffff_ffffu128) by (nonlinear_arith)
            requires
                i < 0xffff_ffff_ffff_ffffu128,
        ;
        acc = acc + s as u128;
        i = i + 1;
    }
    proof {
        assert(votes@.take(votes@.len() as int) =~= votes@);
    }
    acc
}

/// Finds the non-nil value with a quorum of votes (the first such in vote order).
pub fn find_quorum_value(vs: &ValidatorSet, votes: &Vec<(Pubkey, Option<Hash32>)>, quorum: u64) -> (r: Option<Hash32>)
    ensures
        r == quorum_value(vs@, votes@, quorum as int),
{
    let mut i: usize = 0;
    while i < votes.len()
        invariant
            0 <= i <= votes@.len(),
            quorum_value(vs@, votes@, quorum as int) == quorum_value_from(vs@, votes@, quorum as int, i as int),
        decreases votes@.len() - i,
    {
        let v = votes[i].1;
        if v.is_some() {
            let w = weight_of(vs, votes, &v);
            if w >= quorum as u128 {
                return v;
            }
        }
        i = i + 1;
    }
    None
}

} // verus!

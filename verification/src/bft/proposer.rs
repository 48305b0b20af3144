//! Deterministic, stake-weighted proposer selection.

use vstd::prelude::*;
use crate::primitives::Pubkey;
use crate::bft::validator_set::{
    ValidatorInfo, ValidatorSet, stake_sum, lemma_stake_sum_push, lemma_stake_sum_prefix,
};

verus! {

/// The stake position drawn for `(height, round)`: `(height + round) mod 2^64 mod total`.
pub open spec fn selection_target(height: u64, round: u32, total: int) -> int {
    height.wrapping_add(round as u64) as int % total
}

/// Validator `i` covers stake position `target`: the stakes before it sum to at most
/// `target`, and including it they exceed `target`.
pub open spec fn covers(s: Seq<ValidatorInfo>, i: int, target: int) -> bool {
    &&& 0 <= i < s.len()
    &&& stake_sum(s.take(i)) <= target < stake_sum(s.take(i + 1))
}

/// The proposer chosen for `(height, round)`: the validator covering the drawn stake
/// position, walking the set in canonical order.
pub open spec fn is_proposer_choice(s: Seq<ValidatorInfo>, height: u64, round: u32, pubkey: Pubkey) -> bool {
    exists|i: int| covers(s, i, selection_target(height, round, stake_sum(s))) && s[i].pubkey == pubkey
}

/// Picks the proposer for `(height, round)`: with `target = (height + round) mod total_stake`,
/// the first validator in canonical order whose cumulative stake exceeds `target`.
/// `None` when the set is empty.
pub fn proposer_for_round(validator_set: &ValidatorSet, height: u64, round: u32) -> (r: Option<Pubkey>)
    requires
        validator_set.wf(),
    ensures
        validator_set@.len() == 0 ==> r is None,
        validator_set@.len() > 0 ==> (r matches Some(pk) && is_proposer_choice(validator_set@, height, round, pk)),
{
    proof {
        validator_set.lemma_wf();
    }
    if validator_set.is_empty() || validator_set.total_stake() == 0 {
        proof {
            if validator_set@.len() > 0 {
                assert(validator_set@[0].stake > 0);
                lemma_stake_sum_positive(validator_set@);
            }
        }
        return None;
    }
    let total = validator_set.total_stake();
    let seed = height.wrapping_add(round as u64);
    let target = seed % total;
    let s = validator_set.iter();
    let ghost sv = validator_set@;
    let mut accumulated: u64 = 0;
    let mut i: usize = 0;
    while i < s.len()
        invariant
            s@ == sv,
            sv == validator_set@,
            0 <= i <= sv.len(),
            total == stake_sum(sv),
            target == selection_target(height, round, stake_sum(sv)),
            accumulated == stake_sum(sv.take(i as int)),
            accumulated <= target,
            stake_sum(sv) <= u64::MAX,
        decreases sv.len() - i,
    {
        proof {
            assert(sv.take(i + 1) =~= sv.take(i as int).push(sv[i as int]));
            lemma_stake_sum_push(sv.take(i as int), sv[i as int]);
            lemma_stake_sum_prefix(sv, i + 1);
        }
        accumulated = accumulated + s[i].stake;
        if accumulated > target {
            proof {
                assert(covers(sv, i as int, target as int));
                assert(is_proposer_choice(sv, height, round, sv[i as int].pubkey));
            }
            return Some(s[i].pubkey);
        }
        i = i + 1;
    }
    proof {
        assert(sv.take(sv.len() as int) =~= sv);
        assert(false);
    }
    None
}

/// A nonempty set with positive stakes has a positive total.
pub proof fn lemma_stake_sum_positive(s: Seq<ValidatorInfo>)
    requires
        s.len() > 0,
        s[0].stake > 0,
    ensures
        stake_sum(s) > 0,
{
    crate::bft::validator_set::lemma_stake_sum_nonneg(s.drop_first());
}

/// Whether `identity` is the proposer for `(height, round)`.
pub fn is_proposer(validator_set: &ValidatorSet, identity: &Pubkey, height: u64, round: u32) -> (r: bool)
    requires
        validator_set.wf(),
    ensures
        r == (validator_set@.len() > 0 && is_proposer_choice(validator_set@, height, round, *identity)),
{
    proof {
        validator_set.lemma_wf();
    }
    match proposer_for_round(validator_set, height, round) {
        Some(p) => {
            let r = p == *identity;
            proof {
                if !r && validator_set@.len() > 0 && is_proposer_choice(validator_set@, height, round, *identity) {
                    law_proposer_unique(validator_set@, height, round, p, *identity);
                }
            }
            r
        },
        None => false,
    }
}

/// Cumulative stakes grow strictly along a set with positive stakes.
proof fn lemma_prefix_strict(s: Seq<ValidatorInfo>, i: int, j: int)
    requires
        0 <= i < j <= s.len(),
        forall|k: int| 0 <= k < s.len() ==> #[trigger] s[k].stake > 0,
    ensures
        stake_sum(s.take(i)) < stake_sum(s.take(j)),
    decreases j - i,
{
    assert(s.take(i + 1) =~= s.take(i).push(s[i]));
    lemma_stake_sum_push(s.take(i), s[i]);
    if i + 1 < j {
        lemma_prefix_strict(s, i + 1, j);
    }
}

/// At most one validator covers a given stake position, so the proposer of a round is a
/// single, well-defined key.
pub proof fn law_proposer_unique(s: Seq<ValidatorInfo>, height: u64, round: u32, a: Pubkey, b: Pubkey)
    requires
        forall|k: int| 0 <= k < s.len() ==> #[trigger] s[k].stake > 0,
        is_proposer_choice(s, height, round, a),
        is_proposer_choice(s, height, round, b),
    ensures
        a == b,
{
    let t = selection_target(height, round, stake_sum(s));
    let i = choose|i: int| covers(s, i, t) && s[i].pubkey == a;
    let j = choose|j: int| covers(s, j, t) && s[j].pubkey == b;
    if i < j {
        lemma_prefix_strict(s, i + 1, j);
    } else if j < i {
        lemma_prefix_strict(s, j + 1, i);
    }
}

} // verus!

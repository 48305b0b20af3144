//! The stake-weighted validator set, kept in a canonical order.

use vstd::prelude::*;
use vstd::relations::{sorted_by, total_ordering};
use crate::primitives::{Pubkey, pubkey_lt, pubkey_lt_spec, lemma_pubkey_order};

verus! {

/// A validator and its stake weight.
#[derive(Debug, Clone, Copy)]
pub struct ValidatorInfo {
    pub pubkey: Pubkey,
    pub stake: u64,
}

impl PartialEq for ValidatorInfo {
    fn eq(&self, other: &Self) -> (r: bool) {
        self.stake == other.stake && self.pubkey == other.pubkey
    }
}

impl vstd::std_specs::cmp::PartialEqSpecImpl for ValidatorInfo {
    open spec fn obeys_eq_spec() -> bool {
        true
    }

    open spec fn eq_spec(&self, other: &Self) -> bool {
        *self == *other
    }
}

impl Eq for ValidatorInfo {}

/// The canonical order: stake descending, then key ascending.
pub open spec fn validator_leq(a: ValidatorInfo, b: ValidatorInfo) -> bool {
    a.stake > b.stake || (a.stake == b.stake && !pubkey_lt_spec(b.pubkey, a.pubkey))
}

/// The canonical order as a relation.
pub open spec fn validator_order() -> spec_fn(ValidatorInfo, ValidatorInfo) -> bool {
    |a: ValidatorInfo, b: ValidatorInfo| validator_leq(a, b)
}

/// The sum of the stakes of a sequence of validators.
pub open spec fn stake_sum(s: Seq<ValidatorInfo>) -> int
    decreases s.len(),
{
    if s.len() == 0 {
        0
    } else {
        s[0].stake + stake_sum(s.drop_first())
    }
}

/// The validators described by `(key, stake)` pairs, in input order, zero stakes dropped.
pub open spec fn positive_entries(input: Seq<(Pubkey, u64)>) -> Seq<ValidatorInfo>
    decreases input.len(),
{
    if input.len() == 0 {
        Seq::empty()
    } else {
        let rest = positive_entries(input.drop_last());
        let (pubkey, stake) = input.last();
        if stake > 0 {
            rest.push(ValidatorInfo { pubkey, stake })
        } else {
            rest
        }
    }
}

/// The validators of `s` other than `pubkey`, in order.
pub open spec fn without_key(s: Seq<ValidatorInfo>, pubkey: Pubkey) -> Seq<ValidatorInfo> {
    s.filter(|v: ValidatorInfo| v.pubkey != pubkey)
}

/// The highest index `< n` whose validator has `pubkey`, or -1.
pub open spec fn last_index_of(s: Seq<ValidatorInfo>, pubkey: Pubkey, n: int) -> int
    decreases n,
{
    if n <= 0 {
        -1
    } else if s[n - 1].pubkey == pubkey {
        n - 1
    } else {
        last_index_of(s, pubkey, n - 1)
    }
}

/// Where `pubkey` is found: its last position in the set, or -1.
pub open spec fn position_of(s: Seq<ValidatorInfo>, pubkey: Pubkey) -> int {
    last_index_of(s, pubkey, s.len() as int)
}

/// The stake recorded for `pubkey`, 0 when absent.
pub open spec fn stake_of_spec(s: Seq<ValidatorInfo>, pubkey: Pubkey) -> u64 {
    let i = position_of(s, pubkey);
    if i < 0 { 0 } else { s[i].stake }
}

/// `max(min(ceil(total * ppm / 1_000_000), u64::MAX), 1)`.
pub open spec fn quorum_spec(total: int, threshold_ppm: int) -> int {
    let q = (total * threshold_ppm + 999_999) / 1_000_000;
    let capped = if q > u64::MAX { u64::MAX as int } else { q };
    if capped < 1 { 1 } else { capped }
}

/// Validators kept sorted by stake (descending) then key (ascending), with their total stake.
#[derive(Debug, Clone)]
pub struct ValidatorSet {
    validators: Vec<ValidatorInfo>,
    total_stake: u64,
}

pub proof fn lemma_order_total()
    ensures
        total_ordering(validator_order()),
{
    let ord = validator_order();
    assert forall|x: ValidatorInfo| #[trigger] ord(x, x) by {
        lemma_pubkey_order(x.pubkey, x.pubkey, x.pubkey);
    }
    assert forall|x: ValidatorInfo, y: ValidatorInfo| #[trigger] ord(x, y) && #[trigger] ord(y, x) implies x == y by {
        lemma_pubkey_order(x.pubkey, y.pubkey, x.pubkey);
    }
    assert forall|x: ValidatorInfo, y: ValidatorInfo, z: ValidatorInfo|
        #[trigger] ord(x, y) && #[trigger] ord(y, z) implies ord(x, z) by {
        lemma_pubkey_order(x.pubkey, y.pubkey, z.pubkey);
        lemma_pubkey_order(z.pubkey, y.pubkey, x.pubkey);
        lemma_pubkey_order(x.pubkey, z.pubkey, y.pubkey);
        lemma_pubkey_order(y.pubkey, x.pubkey, z.pubkey);
        lemma_pubkey_order(y.pubkey, z.pubkey, x.pubkey);
        lemma_pubkey_order(z.pubkey, x.pubkey, y.pubkey);
    }
    assert forall|x: ValidatorInfo, y: ValidatorInfo| #[trigger] ord(x, y) || #[trigger] ord(y, x) by {
        lemma_pubkey_order(x.pubkey, y.pubkey, x.pubkey);
    }
}

proof fn lemma_stake_sum_insert(s: Seq<ValidatorInfo>, i: int, x: ValidatorInfo)
    requires
        0 <= i <= s.len(),
    ensures
        stake_sum(s.insert(i, x)) == stake_sum(s) + x.stake,
    decreases s.len(),
{
    if i == 0 {
        assert(s.insert(0, x).drop_first() =~= s);
    } else {
        assert(s.insert(i, x).drop_first() =~= s.drop_first().insert(i - 1, x));
        lemma_stake_sum_insert(s.drop_first(), i - 1, x);
    }
}

pub proof fn lemma_stake_sum_nonneg(s: Seq<ValidatorInfo>)
    ensures
        stake_sum(s) >= 0,
    decreases s.len(),
{
    if s.len() > 0 {
        lemma_stake_sum_nonneg(s.drop_first());
    }
}

pub proof fn lemma_stake_sum_push(s: Seq<ValidatorInfo>, x: ValidatorInfo)
    ensures
        stake_sum(s.push(x)) == stake_sum(s) + x.stake,
{
    assert(s.push(x) =~= s.insert(s.len() as int, x));
    lemma_stake_sum_insert(s, s.len() as int, x);
}

pub proof fn lemma_stake_sum_prefix(s: Seq<ValidatorInfo>, j: int)
    requires
        0 <= j <= s.len(),
    ensures
        stake_sum(s.take(j)) <= stake_sum(s),
    decreases s.len() - j,
{
    if j < s.len() {
        lemma_stake_sum_prefix(s, j + 1);
        assert(s.take(j + 1) =~= s.take(j).push(s[j]));
        lemma_stake_sum_push(s.take(j), s[j]);
    } else {
        assert(s.take(j) =~= s);
    }
}

/// Whether `a` comes no later than `b` in the canonical order.
pub fn validator_le(a: &ValidatorInfo, b: &ValidatorInfo) -> (r: bool)
    ensures
        r == validator_leq(*a, *b),
{
    a.stake > b.stake || (a.stake == b.stake && !pubkey_lt(&b.pubkey, &a.pubkey))
}

/// Inserts `x` into a sorted vector, keeping it sorted.
fn sorted_insert(out: &mut Vec<ValidatorInfo>, x: ValidatorInfo)
    requires
        sorted_by(old(out)@, validator_order()),
    ensures
        sorted_by(final(out)@, validator_order()),
        final(out)@.to_multiset() == old(out)@.to_multiset().insert(x),
        stake_sum(final(out)@) == stake_sum(old(out)@) + x.stake,
        forall|v: ValidatorInfo| final(out)@.contains(v) ==> old(out)@.contains(v) || v == x,
{
    let ghost ord = validator_order();
    proof {
        lemma_order_total();
    }
    let mut p: usize = 0;
    while p < out.len() && !validator_le(&x, &out[p])
        invariant
            0 <= p <= out@.len(),
            forall|k: int| 0 <= k < p ==> !validator_leq(x, #[trigger] out@[k]),
        decreases out@.len() - p,
    {
        p = p + 1;
    }
    let ghost old_s = out@;
    out.insert(p, x);
    proof {
        let s = out@;
        assert(s == old_s.insert(p as int, x));
        assert forall|i: int, j: int| 0 <= i < j < s.len() implies #[trigger] ord(s[i], s[j]) by {
            if j < p {
                assert(ord(old_s[i], old_s[j]));
            } else if j == p {
                assert(!validator_leq(x, old_s[i]));
                assert(ord(x, old_s[i]) || ord(old_s[i], x));
            } else if i < p {
                assert(ord(old_s[i], old_s[j - 1]));
            } else if i == p {
                assert(validator_leq(x, old_s[p as int]));
                if j - 1 > p {
                    assert(ord(old_s[p as int], old_s[j - 1]));
                    assert(ord(x, old_s[p as int]) && ord(old_s[p as int], old_s[j - 1]));
                }
            } else {
                assert(ord(old_s[i - 1], old_s[j - 1]));
            }
        }
        vstd::seq_lib::to_multiset_insert(old_s, p as int, x);
        lemma_stake_sum_insert(old_s, p as int, x);
        assert forall|v: ValidatorInfo| s.contains(v) implies old_s.contains(v) || v == x by {
            let k = choose|k: int| 0 <= k < s.len() && s[k] == v;
            if k < p {
                assert(old_s[k] == v);
            } else if k > p {
                assert(old_s[k - 1] == v);
            }
        }
    }
}

/// Sorts validators into the canonical order and sums their stakes.
fn sort_and_sum(v: &Vec<ValidatorInfo>) -> (r: (Vec<ValidatorInfo>, u64))
    requires
        stake_sum(v@) <= u64::MAX,
        forall|k: int| 0 <= k < v@.len() ==> #[trigger] v@[k].stake > 0,
    ensures
        r.0@ == v@.sort_by(validator_order()),
        r.1 == stake_sum(v@),
        r.1 == stake_sum(r.0@),
        sorted_by(r.0@, validator_order()),
        forall|k: int| 0 <= k < r.0@.len() ==> #[trigger] r.0@[k].stake > 0,
{
    let mut out: Vec<ValidatorInfo> = Vec::new();
    let mut total: u64 = 0;
    let mut j: usize = 0;
    proof {
        assert(v@.take(0) =~= out@);
    }
    while j < v.len()
        invariant
            0 <= j <= v@.len(),
            stake_sum(v@) <= u64::MAX,
            forall|k: int| 0 <= k < v@.len() ==> #[trigger] v@[k].stake > 0,
            sorted_by(out@, validator_order()),
            out@.to_multiset() == v@.take(j as int).to_multiset(),
            stake_sum(out@) == stake_sum(v@.take(j as int)),
            total == stake_sum(out@),
            forall|k: int| 0 <= k < out@.len() ==> #[trigger] out@[k].stake > 0,
        decreases v@.len() - j,
    {
        let x = v[j];
        let ghost before = out@;
        proof {
            assert(v@.take(j + 1) =~= v@.take(j as int).push(x));
            lemma_stake_sum_push(v@.take(j as int), x);
            lemma_stake_sum_prefix(v@, j + 1);
            vstd::seq_lib::to_multiset_build(v@.take(j as int), x);
        }
        sorted_insert(&mut out, x);
        proof {
            assert forall|k: int| 0 <= k < out@.len() implies #[trigger] out@[k].stake > 0 by {
                assert(out@.contains(out@[k]));
                if before.contains(out@[k]) {
                    let m = choose|m: int| 0 <= m < before.len() && before[m] == out@[k];
                    assert(before[m].stake > 0);
                }
            }
        }
        total = total + x.stake;
        j = j + 1;
    }
    proof {
        assert(v@.take(v@.len() as int) =~= v@);
        lemma_order_total();
        v@.lemma_sort_by_ensures(validator_order());
        vstd::seq_lib::lemma_sorted_unique(out@, v@.sort_by(validator_order()), validator_order());
    }
    (out, total)
}

impl ValidatorSet {
    /// Well-formedness: canonical order, positive stakes, and the cached total.
    pub closed spec fn wf(&self) -> bool {
        &&& sorted_by(self.validators@, validator_order())
        &&& forall|k: int| 0 <= k < self.validators@.len() ==> #[trigger] self.validators@[k].stake > 0
        &&& self.total_stake == stake_sum(self.validators@)
    }

    /// The validators in canonical order.
    pub closed spec fn view(&self) -> Seq<ValidatorInfo> {
        self.validators@
    }

    /// What well-formedness gives: the view is sorted, every stake is positive, and the
    /// total is the sum of the stakes.
    pub proof fn lemma_wf(&self)
        requires
            self.wf(),
        ensures
            sorted_by(self@, validator_order()),
            forall|k: int| 0 <= k < self@.len() ==> #[trigger] self@[k].stake > 0,
            stake_sum(self@) <= u64::MAX,
    {
    }

    /// Builds a set from `(key, stake)` pairs: zero stakes are dropped and the rest sorted by
    /// stake descending, then key ascending.
    pub fn new(validators: Vec<(Pubkey, u64)>) -> (r: Self)
        requires
            stake_sum(positive_entries(validators@)) <= u64::MAX,
        ensures
            r.wf(),
            r@ == positive_entries(validators@).sort_by(validator_order()),
    {
        let mut infos: Vec<ValidatorInfo> = Vec::new();
        let mut i: usize = 0;
        while i < validators.len()
            invariant
                0 <= i <= validators@.len(),
                infos@ == positive_entries(validators@.take(i as int)),
                forall|k: int| 0 <= k < infos@.len() ==> #[trigger] infos@[k].stake > 0,
            decreases validators@.len() - i,
        {
            let (pubkey, stake) = validators[i];
            proof {
                assert(validators@.take(i + 1).drop_last() =~= validators@.take(i as int));
            }
            if stake > 0 {
                infos.push(ValidatorInfo { pubkey, stake });
            }
            i = i + 1;
        }
        proof {
            assert(validators@.take(validators@.len() as int) =~= validators@);
        }
        let (sorted, total) = sort_and_sum(&infos);
        ValidatorSet { validators: sorted, total_stake: total }
    }

    /// The number of validators.
    pub fn len(&self) -> (r: usize)
        ensures
            r == self@.len(),
    {
        self.validators.len()
    }

    /// Whether the set holds no validator.
    pub fn is_empty(&self) -> (r: bool)
        ensures
            r == (self@.len() == 0),
    {
        self.validators.len() == 0
    }

    /// The total stake of all validators.
    pub fn total_stake(&self) -> (r: u64)
        requires
            self.wf(),
        ensures
            r == stake_sum(self@),
    {
        self.total_stake
    }

    /// The validator at `index` in canonical order.
    pub fn get(&self, index: usize) -> (r: Option<&ValidatorInfo>)
        ensures
            index < self@.len() ==> r == Some(&self@[index as int]),
            index >= self@.len() ==> r is None,
    {
        if index < self.validators.len() {
            Some(&self.validators[index])
        } else {
            None
        }
    }

    /// The position of `pubkey` (its last occurrence), if present.
    fn find(&self, pubkey: &Pubkey) -> (r: Option<usize>)
        ensures
            position_of(self@, *pubkey) < 0 <==> r is None,
            r matches Some(i) ==> i as int == position_of(self@, *pubkey) && i < self@.len(),
    {
        let mut n: usize = self.validators.len();
        while n > 0
            invariant
                0 <= n <= self@.len(),
                position_of(self@, *pubkey) == last_index_of(self@, *pubkey, n as int),
            decreases n,
        {
            if self.validators[n - 1].pubkey == *pubkey {
                return Some(n - 1);
            }
            n = n - 1;
        }
        None
    }

    /// The validator with `pubkey`, if present.
    pub fn get_by_pubkey(&self, pubkey: &Pubkey) -> (r: Option<&ValidatorInfo>)
        ensures
            position_of(self@, *pubkey) < 0 ==> r is None,
            position_of(self@, *pubkey) >= 0 ==> r == Some(&self@[position_of(self@, *pubkey)]),
    {
        proof {
            lemma_last_index_bounds(self@, *pubkey, self@.len() as int);
        }
        match self.find(pubkey) {
            Some(i) => {
                Some(&self.validators[i])
            },
            None => None,
        }
    }

    /// The stake of `pubkey`, 0 when it is not in the set.
    pub fn stake_of(&self, pubkey: &Pubkey) -> (r: u64)
        ensures
            r == stake_of_spec(self@, *pubkey),
    {
        proof {
            lemma_last_index_bounds(self@, *pubkey, self@.len() as int);
        }
        match self.find(pubkey) {
            Some(i) => self.validators[i].stake,
            None => 0,
        }
    }

    /// Whether `pubkey` is in the set.
    pub fn contains(&self, pubkey: &Pubkey) -> (r: bool)
        ensures
            r == (position_of(self@, *pubkey) >= 0),
    {
        self.find(pubkey).is_some()
    }

    /// The minimum stake for a quorum at `threshold_ppm` parts per million of the total:
    /// `ceil(total * threshold_ppm / 1_000_000)`, capped at `u64::MAX`, and at least 1.
    pub fn quorum_stake(&self, threshold_ppm: u64) -> (r: u64)
        requires
            self.wf(),
        ensures
            r == quorum_spec(stake_sum(self@), threshold_ppm as int),
    {
        let t = self.total_stake as u128;
        let p = threshold_ppm as u128;
        assert(t * p <= u64::MAX * u64::MAX) by (nonlinear_arith)
            requires
                t <= u64::MAX,
                p <= u64::MAX,
        ;
        let q = (t * p + 999_999) / 1_000_000;
        let capped: u64 = if q > u64::MAX as u128 { u64::MAX } else { q as u64 };
        if capped < 1 { 1 } else { capped }
    }

    /// The validators in canonical order.
    pub fn iter(&self) -> (r: &[ValidatorInfo])
        ensures
            r@ == self@,
    {
        self.validators.as_slice()
    }

    /// The keys of all validators in canonical order.
    pub fn pubkeys(&self) -> (r: Vec<Pubkey>)
        ensures
            r@.len() == self@.len(),
            forall|k: int| 0 <= k < r@.len() ==> #[trigger] r@[k] == self@[k].pubkey,
    {
        let mut out: Vec<Pubkey> = Vec::new();
        let mut i: usize = 0;
        while i < self.validators.len()
            invariant
                0 <= i <= self@.len(),
                out@.len() == i,
                forall|k: int| 0 <= k < i ==> #[trigger] out@[k] == self@[k].pubkey,
            decreases self@.len() - i,
        {
            out.push(self.validators[i].pubkey);
            i = i + 1;
        }
        out
    }

    /// Adds `pubkey` with `stake`, replacing any entry it had (all of them); a zero stake
    /// removes it. The set is re-sorted.
    pub fn upsert(&mut self, pubkey: Pubkey, stake: u64)
        requires
            old(self).wf(),
            stake_sum(upserted(old(self)@, pubkey, stake)) <= u64::MAX,
        ensures
            final(self).wf(),
            final(self)@ == upserted(old(self)@, pubkey, stake).sort_by(validator_order()),
    {
        let mut kept: Vec<ValidatorInfo> = Vec::new();
        let mut i: usize = 0;
        let ghost pred = |v: ValidatorInfo| v.pubkey != pubkey;
        while i < self.validators.len()
            invariant
                0 <= i <= self.validators@.len(),
                pred == (|v: ValidatorInfo| v.pubkey != pubkey),
                kept@ == self.validators@.take(i as int).filter(pred),
                forall|k: int| 0 <= k < self.validators@.len() ==> #[trigger] self.validators@[k].stake > 0,
                forall|k: int| 0 <= k < kept@.len() ==> #[trigger] kept@[k].stake > 0,
            decreases self.validators@.len() - i,
        {
            let v = self.validators[i];
            proof {
                reveal(Seq::filter);
                assert(self.validators@.take(i + 1).drop_last() =~= self.validators@.take(i as int));
            }
            let ghost prefix = self.validators@.take(i as int);
            proof {
                assert(self.validators@.take(i + 1) =~= prefix.push(v));
            }
            if !(v.pubkey == pubkey) {
                kept.push(v);
                proof {
                    assert(v.pubkey != pubkey);
                    assert(pred(v));
                    assert(prefix.push(v).filter(pred) == prefix.filter(pred).push(v));
                }
            } else {
                proof {
                    assert(!pred(v));
                    assert(prefix.push(v).filter(pred) == prefix.filter(pred));
                }
            }
            i = i + 1;
        }
        proof {
            assert(self.validators@.take(self.validators@.len() as int) =~= self.validators@);
        }
        if stake > 0 {
            kept.push(ValidatorInfo { pubkey, stake });
        }
        let (sorted, total) = sort_and_sum(&kept);
        self.validators = sorted;
        self.total_stake = total;
    }

    /// Removes every entry of `pubkey`.
    pub fn remove(&mut self, pubkey: &Pubkey)
        requires
            old(self).wf(),
        ensures
            final(self).wf(),
            final(self)@ == without_key(old(self)@, *pubkey).sort_by(validator_order()),
    {
        proof {
            lemma_without_key_sum(self.validators@, *pubkey);
        }
        self.upsert(*pubkey, 0);
    }
}

/// The entries after an upsert, before sorting: the others, then the new entry if its stake
/// is positive.
pub open spec fn upserted(s: Seq<ValidatorInfo>, pubkey: Pubkey, stake: u64) -> Seq<ValidatorInfo> {
    if stake > 0 {
        without_key(s, pubkey).push(ValidatorInfo { pubkey, stake })
    } else {
        without_key(s, pubkey)
    }
}

proof fn lemma_last_index_bounds(s: Seq<ValidatorInfo>, pubkey: Pubkey, n: int)
    requires
        0 <= n <= s.len(),
    ensures
        -1 <= last_index_of(s, pubkey, n) < n,
        last_index_of(s, pubkey, n) >= 0 ==> s[last_index_of(s, pubkey, n)].pubkey == pubkey,
    decreases n,
{
    if n > 0 {
        lemma_last_index_bounds(s, pubkey, n - 1);
    }
}

proof fn lemma_filter_sum_le(s: Seq<ValidatorInfo>, pred: spec_fn(ValidatorInfo) -> bool)
    ensures
        stake_sum(s.filter(pred)) <= stake_sum(s),
    decreases s.len(),
{
    reveal(Seq::filter);
    if s.len() > 0 {
        let init = s.drop_last();
        lemma_filter_sum_le(init, pred);
        assert(s =~= init.push(s.last()));
        lemma_stake_sum_push(init, s.last());
        if pred(s.last()) {
            lemma_stake_sum_push(init.filter(pred), s.last());
        }
    }
}

proof fn lemma_without_key_sum(s: Seq<ValidatorInfo>, pubkey: Pubkey)
    ensures
        stake_sum(without_key(s, pubkey)) <= stake_sum(s),
{
    lemma_filter_sum_le(s, |v: ValidatorInfo| v.pubkey != pubkey);
}

} // verus!

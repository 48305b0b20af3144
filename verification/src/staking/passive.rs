//! Passive staking: lock tiers, their reward rates and early-unlock penalties, reward accrual,
//! and the lock rules of a stake account.

use vstd::prelude::*;
use crate::arith::{sat_add, sat_add_spec};

verus! {

/// Basis points in a whole.
pub const BPS_DENOMINATOR: u64 = 10_000;

/// Seconds in a day.
pub const SECONDS_PER_DAY: i64 = 86_400;

/// The tier without a lock.
pub const TIER_NO_LOCK: u64 = 0;
/// The 30-day tier.
pub const TIER_30_DAY: u64 = 30;
/// The 90-day tier.
pub const TIER_90_DAY: u64 = 90;
/// The 180-day tier.
pub const TIER_180_DAY: u64 = 180;
/// The 360-day tier.
pub const TIER_360_DAY: u64 = 360;
/// The permanent tier.
pub const PERMANENT_LOCK_DAYS: u64 = 0xFFFF_FFFF_FFFF_FFFF;

/// Whether `tier` is one of the lock tiers.
pub open spec fn is_valid_tier(tier: u64) -> bool {
    tier == TIER_NO_LOCK || tier == TIER_30_DAY || tier == TIER_90_DAY || tier == TIER_180_DAY
        || tier == TIER_360_DAY || tier == PERMANENT_LOCK_DAYS
}

/// The reward rate of a tier, in basis points: 5 %, 10 %, 20 %, 30 %, 50 % and 120 % from no
/// lock to permanent.
pub open spec fn reward_rate_spec(tier: u64) -> Option<u64> {
    if tier == 0 {
        Some(500)
    } else if tier == 30 {
        Some(1_000)
    } else if tier == 90 {
        Some(2_000)
    } else if tier == 180 {
        Some(3_000)
    } else if tier == 360 {
        Some(5_000)
    } else if tier == PERMANENT_LOCK_DAYS {
        Some(12_000)
    } else {
        None
    }
}

/// The early-unlock penalty of a tier, in basis points; none for the permanent tier, which
/// cannot unlock early.
pub open spec fn penalty_spec(tier: u64) -> Option<u64> {
    if tier == 0 {
        Some(0)
    } else if tier == 30 {
        Some(250)
    } else if tier == 90 {
        Some(500)
    } else if tier == 180 {
        Some(750)
    } else if tier == 360 {
        Some(1_250)
    } else {
        None
    }
}

/// The reward rate of a tier, in basis points; `None` for an unknown tier.
pub fn reward_rate_bps(tier: u64) -> (r: Option<u64>)
    ensures
        r == reward_rate_spec(tier),
{
    if tier == 0 {
        Some(500)
    } else if tier == 30 {
        Some(1_000)
    } else if tier == 90 {
        Some(2_000)
    } else if tier == 180 {
        Some(3_000)
    } else if tier == 360 {
        Some(5_000)
    } else if tier == PERMANENT_LOCK_DAYS {
        Some(12_000)
    } else {
        None
    }
}

/// The early-unlock penalty of a tier, in basis points; `None` for the permanent tier and
/// unknown tiers.
pub fn early_unlock_penalty_bps(tier: u64) -> (r: Option<u64>)
    ensures
        r == penalty_spec(tier),
{
    if tier == 0 {
        Some(0)
    } else if tier == 30 {
        Some(250)
    } else if tier == 90 {
        Some(500)
    } else if tier == 180 {
        Some(750)
    } else if tier == 360 {
        Some(1_250)
    } else {
        None
    }
}

/// The divisor of a per-epoch reward: two basis-point factors and 365 epochs a year.
pub open spec fn reward_denominator() -> int {
    36_500_000_000int
}

/// The rewards of `amount` over `epochs_elapsed` epochs at a validator rate and a tier rate
/// (both in basis points): `amount * validator_rate * tier_rate / (10^8 * 365)` per epoch,
/// rounded down, times the epochs, capped at `u64::MAX`; `None` when a 128-bit intermediate
/// overflows.
pub open spec fn rewards_spec(amount: u64, validator_reward_rate: u64, tier_rate_bps: u64, epochs_elapsed: u64) -> Option<u64> {
    let product = amount * validator_reward_rate * tier_rate_bps;
    if product > u128::MAX {
        None
    } else {
        let total = (product / reward_denominator()) * epochs_elapsed;
        if total > u128::MAX {
            None
        } else if total > u64::MAX {
            Some(u64::MAX)
        } else {
            Some(total as u64)
        }
    }
}

/// The rewards of a stake over some epochs; see [`rewards_spec`].
pub fn calculate_rewards(amount: u64, validator_reward_rate: u64, tier_rate_bps: u64, epochs_elapsed: u64) -> (r: Option<u64>)
    ensures
        r == rewards_spec(amount, validator_reward_rate, tier_rate_bps, epochs_elapsed),
{
    let a = amount as u128;
    proof {
        assert(amount * validator_reward_rate <= u64::MAX * u64::MAX) by (nonlinear_arith)
            requires
                amount <= u64::MAX,
                validator_reward_rate <= u64::MAX,
        ;
    }
    let v = a * (validator_reward_rate as u128);
    let p = match v.checked_mul(tier_rate_bps as u128) {
        Some(p) => p,
        None => {
            return None;
        },
    };
    let per_epoch = p / 36_500_000_000u128;
    let total = match per_epoch.checked_mul(epochs_elapsed as u128) {
        Some(t) => t,
        None => {
            return None;
        },
    };
    if total > u64::MAX as u128 {
        Some(u64::MAX)
    } else {
        Some(total as u64)
    }
}

/// A single epoch's reward never exceeds the stake: at most a 100 % validator rate and a
/// 120 % tier rate a year give at most 1.2 / 365 of the stake per epoch.
pub proof fn law_single_epoch_reward_within_stake(amount: u64, validator_reward_rate: u64, tier_rate_bps: u64)
    requires
        validator_reward_rate <= 10_000,
        tier_rate_bps <= 12_000,
    ensures
        rewards_spec(amount, validator_reward_rate, tier_rate_bps, 1) matches Some(x) && x <= amount,
{
    let product = amount * validator_reward_rate * tier_rate_bps;
    assert(product <= amount * 120_000_000) by (nonlinear_arith)
        requires
            validator_reward_rate <= 10_000,
            tier_rate_bps <= 12_000,
            product == amount * validator_reward_rate * tier_rate_bps,
            amount >= 0,
    ;
    assert(product / reward_denominator() <= amount) by (nonlinear_arith)
        requires
            0 <= product <= amount * 120_000_000,
            amount >= 0,
            reward_denominator() == 36_500_000_000,
    ;
}

/// What an unlock attempt gives.
#[derive(Debug, Clone, Copy, PartialEq, Eq, Structural)]
pub enum UnlockOutcome {
    /// The account holds no stake.
    NotInitialized,
    /// A permanent lock never unlocks.
    EarlyUnlockNotAllowed,
    /// The lock has not expired.
    LockNotExpired,
    /// The stake is released.
    Unlocked,
}

/// A passive stake account.
#[derive(Debug, Clone, Copy)]
pub struct PassiveStakeAccount {
    /// Whether the account holds stake.
    pub is_initialized: bool,
    /// The staked lamports.
    pub amount: u64,
    /// The lock tier, in days (`PERMANENT_LOCK_DAYS` for a permanent lock).
    pub lock_days: u64,
    /// When the lock started, in Unix seconds.
    pub lock_start: i64,
    /// When a timed lock ends, in Unix seconds; zero without a timed lock.
    pub lock_end: i64,
    /// Whether the lock is permanent.
    pub is_permanent: bool,
    /// Rewards accrued and not claimed (saturating).
    pub unclaimed_rewards: u64,
    /// The last epoch rewards were accrued for.
    pub last_reward_epoch: u64,
}

/// The account that staking `amount` at tier `tier` at time `now` creates.
pub open spec fn staked_account(tier: u64, amount: u64, now: i64) -> PassiveStakeAccount {
    let lock_end: i64 = if tier == PERMANENT_LOCK_DAYS || tier == TIER_NO_LOCK {
        0
    } else {
        let end = now + tier * SECONDS_PER_DAY;
        if end > i64::MAX { i64::MAX } else { end as i64 }
    };
    PassiveStakeAccount {
        is_initialized: true,
        amount,
        lock_days: tier,
        lock_start: now,
        lock_end,
        is_permanent: tier == PERMANENT_LOCK_DAYS,
        unclaimed_rewards: 0,
        last_reward_epoch: 0,
    }
}

/// The account after an early unlock is refused or done: what it returns and the penalty.
pub open spec fn early_unlock_split(amount: u64, penalty_bps: u64) -> Option<(u64, u64)> {
    if amount * penalty_bps > u64::MAX {
        None
    } else {
        let penalty = amount * penalty_bps / (BPS_DENOMINATOR as int);
        Some(((amount - penalty) as u64, penalty as u64))
    }
}

impl Default for PassiveStakeAccount {
    /// An account holding nothing.
    fn default() -> (r: Self)
        ensures
            !r.is_initialized,
            r.amount == 0,
            r.lock_days == 0,
            r.lock_start == 0,
            r.lock_end == 0,
            !r.is_permanent,
            r.unclaimed_rewards == 0,
            r.last_reward_epoch == 0,
    {
        PassiveStakeAccount {
            is_initialized: false,
            amount: 0,
            lock_days: 0,
            lock_start: 0,
            lock_end: 0,
            is_permanent: false,
            unclaimed_rewards: 0,
            last_reward_epoch: 0,
        }
    }
}

impl PassiveStakeAccount {
    /// Stakes `amount` at tier `tier` at time `now`; an account already holding stake is left
    /// as it is. A timed lock ends `tier` days after `now` (saturating); no lock and a
    /// permanent lock have no end.
    pub fn initialize(&mut self, tier: u64, amount: u64, now: i64) -> (r: bool)
        requires
            is_valid_tier(tier),
        ensures
            r == !old(self).is_initialized,
            r ==> *final(self) == staked_account(tier, amount, now),
            !r ==> *final(self) == *old(self),
    {
        if self.is_initialized {
            return false;
        }
        let lock_end: i64 = if tier == PERMANENT_LOCK_DAYS || tier == TIER_NO_LOCK {
            0
        } else {
            let duration: i64 = (tier as i64) * SECONDS_PER_DAY;
            if now > i64::MAX - duration {
                i64::MAX
            } else {
                now + duration
            }
        };
        *self = PassiveStakeAccount {
            is_initialized: true,
            amount,
            lock_days: tier,
            lock_start: now,
            lock_end,
            is_permanent: tier == PERMANENT_LOCK_DAYS,
            unclaimed_rewards: 0,
            last_reward_epoch: 0,
        };
        true
    }

    /// Accrues rewards up to `current_epoch` at the validator's rate. Nothing happens, and
    /// `None` is returned, for an empty account, an epoch already accrued, an unknown tier or
    /// an overflowing reward; otherwise the new rewards are added (saturating) and returned.
    pub fn accrue_rewards(&mut self, current_epoch: u64, validator_reward_rate: u64) -> (r: Option<u64>)
        ensures
            final(self).unclaimed_rewards >= old(self).unclaimed_rewards,
            ({
                let a = *old(self);
                let applies = a.is_initialized && current_epoch > a.last_reward_epoch && reward_rate_spec(a.lock_days) is Some;
                let new_rewards = rewards_spec(
                    a.amount,
                    validator_reward_rate,
                    reward_rate_spec(a.lock_days)->Some_0,
                    (current_epoch - a.last_reward_epoch) as u64,
                );
                if applies && new_rewards is Some {
                    &&& r == new_rewards
                    &&& *final(self) == (PassiveStakeAccount {
                        unclaimed_rewards: sat_add_spec(a.unclaimed_rewards as int, new_rewards->Some_0 as int) as u64,
                        last_reward_epoch: current_epoch,
                        ..a
                    })
                } else {
                    &&& r is None
                    &&& *final(self) == a
                }
            }),
    {
        if !self.is_initialized || current_epoch <= self.last_reward_epoch {
            return None;
        }
        let epochs_elapsed = current_epoch - self.last_reward_epoch;
        let tier_bps = match reward_rate_bps(self.lock_days) {
            Some(r) => r,
            None => {
                return None;
            },
        };
        match calculate_rewards(self.amount, validator_reward_rate, tier_bps, epochs_elapsed) {
            Some(new_rewards) => {
                self.unclaimed_rewards = sat_add(self.unclaimed_rewards, new_rewards);
                self.last_reward_epoch = current_epoch;
                Some(new_rewards)
            },
            None => None,
        }
    }

    /// Withdraws at time `now`: a permanent lock never releases; no lock always does; a timed
    /// lock does once `now` reaches its end. A released account holds no stake.
    pub fn try_unlock(&mut self, now: i64) -> (r: UnlockOutcome)
        ensures
            !old(self).is_initialized ==> r == UnlockOutcome::NotInitialized,
            old(self).is_initialized && old(self).is_permanent ==> r == UnlockOutcome::EarlyUnlockNotAllowed,
            old(self).is_initialized && !old(self).is_permanent && old(self).lock_days == TIER_NO_LOCK ==> r
                == UnlockOutcome::Unlocked,
            old(self).is_initialized && !old(self).is_permanent && old(self).lock_days != TIER_NO_LOCK ==> r == (if now
                >= old(self).lock_end {
                UnlockOutcome::Unlocked
            } else {
                UnlockOutcome::LockNotExpired
            }),
            r == UnlockOutcome::Unlocked ==> *final(self) == (PassiveStakeAccount { is_initialized: false, ..*old(self) }),
            r != UnlockOutcome::Unlocked ==> *final(self) == *old(self),
    {
        if !self.is_initialized {
            return UnlockOutcome::NotInitialized;
        }
        if self.is_permanent {
            return UnlockOutcome::EarlyUnlockNotAllowed;
        }
        if self.lock_days == TIER_NO_LOCK {
            self.is_initialized = false;
            return UnlockOutcome::Unlocked;
        }
        if now >= self.lock_end {
            self.is_initialized = false;
            UnlockOutcome::Unlocked
        } else {
            UnlockOutcome::LockNotExpired
        }
    }

    /// Withdraws before the lock ends, paying the tier's penalty: returns the amount given
    /// back and the penalty, and the account holds no stake. Nothing happens for an empty
    /// account, a permanent lock, an unknown tier, or a penalty whose product overflows.
    pub fn try_early_unlock(&mut self) -> (r: Option<(u64, u64)>)
        ensures
            ({
                let a = *old(self);
                let split = early_unlock_split(a.amount, penalty_spec(a.lock_days)->Some_0);
                if a.is_initialized && !a.is_permanent && penalty_spec(a.lock_days) is Some && split is Some {
                    &&& r == split
                    &&& *final(self) == (PassiveStakeAccount { is_initialized: false, ..a })
                } else {
                    &&& r is None
                    &&& *final(self) == a
                }
            }),
    {
        if !self.is_initialized || self.is_permanent {
            return None;
        }
        let penalty_bps = match early_unlock_penalty_bps(self.lock_days) {
            Some(p) => p,
            None => {
                return None;
            },
        };
        match self.amount.checked_mul(penalty_bps) {
            Some(v) => {
                let penalty = v / BPS_DENOMINATOR;
                let return_amount = self.amount - penalty;
                self.is_initialized = false;
                Some((return_amount, penalty))
            },
            None => None,
        }
    }
}

/// An early unlock splits the stake: the penalty never exceeds it, what is returned and the
/// penalty add up to it, and every timed tier charges a penalty.
pub proof fn law_early_unlock_splits_stake(amount: u64, tier: u64)
    requires
        penalty_spec(tier) is Some,
    ensures
        early_unlock_split(amount, penalty_spec(tier)->Some_0) matches Some(s) ==> s.1 <= amount && s.0 + s.1 == amount,
        tier != TIER_NO_LOCK ==> penalty_spec(tier)->Some_0 > 0,
{
    let bps = penalty_spec(tier)->Some_0;
    if amount * bps <= u64::MAX {
        assert(amount * bps / 10_000 <= amount) by (nonlinear_arith)
            requires
                bps <= 1_250,
                amount >= 0,
        ;
    }
}

/// A timed lock ends after it starts, when its end does not saturate.
pub proof fn law_timed_lock_ends_after_start(tier: u64, amount: u64, now: i64)
    requires
        tier == TIER_30_DAY || tier == TIER_90_DAY || tier == TIER_180_DAY || tier == TIER_360_DAY,
        now + tier * SECONDS_PER_DAY <= i64::MAX,
    ensures
        staked_account(tier, amount, now).lock_end > staked_account(tier, amount, now).lock_start,
{
}


/// The reward table: no lock earns 5 % a year, 30 days 10 %, 90 days 20 %, 180 days 30 %,
/// 360 days 50 % and a permanent lock 120 %; every tier has a rate, no other value does, and
/// of two tiers the longer lock earns strictly more.
pub proof fn law_reward_rates_rise_with_lock(a: u64, b: u64)
    ensures
        reward_rate_spec(a) is Some <==> is_valid_tier(a),
        reward_rate_spec(TIER_NO_LOCK) == Some(500u64),
        reward_rate_spec(TIER_30_DAY) == Some(1_000u64),
        reward_rate_spec(TIER_90_DAY) == Some(2_000u64),
        reward_rate_spec(TIER_180_DAY) == Some(3_000u64),
        reward_rate_spec(TIER_360_DAY) == Some(5_000u64),
        reward_rate_spec(PERMANENT_LOCK_DAYS) == Some(12_000u64),
        is_valid_tier(a) && is_valid_tier(b) && a < b ==> reward_rate_spec(a)->Some_0
            < reward_rate_spec(b)->Some_0,
{
}

/// The early-unlock penalty table: nothing without a lock, 2.5 % for 30 days, 5 % for 90,
/// 7.5 % for 180 and 12.5 % for 360; the permanent tier and unknown values have none. Of two
/// timed tiers the longer lock pays strictly more, and every timed tier pays more than no lock.
pub proof fn law_penalties_rise_with_lock(a: u64, b: u64)
    ensures
        penalty_spec(a) is Some <==> (is_valid_tier(a) && a != PERMANENT_LOCK_DAYS),
        penalty_spec(TIER_NO_LOCK) == Some(0u64),
        penalty_spec(TIER_30_DAY) == Some(250u64),
        penalty_spec(TIER_90_DAY) == Some(500u64),
        penalty_spec(TIER_180_DAY) == Some(750u64),
        penalty_spec(TIER_360_DAY) == Some(1_250u64),
        penalty_spec(PERMANENT_LOCK_DAYS) is None,
        penalty_spec(a) is Some && penalty_spec(b) is Some && a < b ==> penalty_spec(a)->Some_0
            < penalty_spec(b)->Some_0,
{
}

} // verus!

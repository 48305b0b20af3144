//! Slashing and jailing of validators: penalties per offense, the three-strike ban, jail terms,
//! unjailing, and jailing for being offline.

use vstd::prelude::*;

verus! {

/// Slots without a vote after which a validator counts as offline (about a day).
pub const OFFLINE_THRESHOLD: u64 = 216_000;

/// Basis points in a whole.
pub const BPS_DENOM: u64 = 10_000;

/// A slashable offense.
#[derive(Debug, Clone, Copy, PartialEq, Eq, Structural)]
pub enum SlashOffense {
    /// Signing two blocks at one height.
    DoubleSigning,
    /// Proposing an invalid block.
    InvalidBlock,
}

/// Penalties of slashing, in basis points of the validator's own stake, and the offense count
/// that bans a validator for good.
#[derive(Debug, Clone, Copy)]
pub struct SlashingConfig {
    /// Penalty for double signing.
    pub double_sign_penalty_bps: u64,
    /// Penalty for an invalid block.
    pub invalid_block_penalty_bps: u64,
    /// Penalty once the offense count reaches `max_offenses`.
    pub repeat_offense_penalty_bps: u64,
    /// Offenses after which a validator is banned for good.
    pub max_offenses: u8,
}

impl Default for SlashingConfig {
    /// 5 % for double signing, 10 % for an invalid block, 25 % from the third offense, which
    /// also bans.
    fn default() -> (r: Self)
        ensures
            r.double_sign_penalty_bps == 500,
            r.invalid_block_penalty_bps == 1000,
            r.repeat_offense_penalty_bps == 2500,
            r.max_offenses == 3,
    {
        SlashingConfig {
            double_sign_penalty_bps: 500,
            invalid_block_penalty_bps: 1000,
            repeat_offense_penalty_bps: 2500,
            max_offenses: 3,
        }
    }
}

/// The jail state of a validator.
#[derive(Debug, Clone, Copy)]
pub struct ValidatorJailStatus {
    /// Whether the validator is jailed.
    pub is_jailed: bool,
    /// The first epoch it may unjail in.
    pub jail_until_epoch: u64,
    /// Offenses so far (saturating).
    pub offense_count: u8,
    /// Whether it is banned for good.
    pub permanently_banned: bool,
}

impl Default for ValidatorJailStatus {
    /// Free, with no offenses.
    fn default() -> (r: Self)
        ensures
            r == (ValidatorJailStatus { is_jailed: false, jail_until_epoch: 0, offense_count: 0, permanently_banned: false }),
    {
        ValidatorJailStatus { is_jailed: false, jail_until_epoch: 0, offense_count: 0, permanently_banned: false }
    }
}

/// The penalty of an offense that brings the count to `count`: the repeat penalty from
/// `max_offenses` on, else the offense's own.
pub open spec fn penalty_bps_spec(offense: SlashOffense, count: u8, config: SlashingConfig) -> u64 {
    if count >= config.max_offenses {
        config.repeat_offense_penalty_bps
    } else {
        match offense {
            SlashOffense::DoubleSigning => config.double_sign_penalty_bps,
            SlashOffense::InvalidBlock => config.invalid_block_penalty_bps,
        }
    }
}

/// The lamports slashed from `own_stake` at `penalty_bps`, rounded down; the whole stake when
/// the product overflows.
pub open spec fn slash_amount_spec(own_stake: u64, penalty_bps: u64) -> u64 {
    if own_stake * penalty_bps > u64::MAX {
        own_stake
    } else {
        (own_stake * penalty_bps / (BPS_DENOM as int)) as u64
    }
}

/// The status after an offense brings the count to `count` at `current_epoch`: jailed, and
/// banned at `max_offenses`, else jailed for 15 epochs from the second offense and 4 before it.
pub open spec fn after_offense(s: ValidatorJailStatus, count: u8, current_epoch: u64, config: SlashingConfig) -> ValidatorJailStatus {
    if count >= config.max_offenses {
        ValidatorJailStatus { is_jailed: true, offense_count: count, permanently_banned: true, ..s }
    } else {
        let term: int = if count >= 2 { 15 } else { 4 };
        let until = if current_epoch + term > u64::MAX { u64::MAX as int } else { current_epoch + term };
        ValidatorJailStatus { is_jailed: true, offense_count: count, jail_until_epoch: until as u64, ..s }
    }
}

/// A status consistent with the ban rule: a banned validator has reached the offense limit
/// and stays jailed.
pub open spec fn ban_consistent(s: ValidatorJailStatus, config: SlashingConfig) -> bool {
    s.permanently_banned ==> s.offense_count >= config.max_offenses && s.is_jailed
}

/// The offense count after one more offense (saturating).
pub open spec fn next_count(s: ValidatorJailStatus) -> u8 {
    if s.offense_count == u8::MAX { u8::MAX } else { (s.offense_count + 1) as u8 }
}

/// The status after a slash at `current_epoch`: unchanged for a banned validator.
pub open spec fn slashed_status(s: ValidatorJailStatus, current_epoch: u64, config: SlashingConfig) -> ValidatorJailStatus {
    if s.permanently_banned { s } else { after_offense(s, next_count(s), current_epoch, config) }
}

/// The status after an unjail request at `current_epoch`: released once the term is over,
/// unless banned.
pub open spec fn unjailed_status(s: ValidatorJailStatus, current_epoch: u64) -> ValidatorJailStatus {
    if !s.permanently_banned && current_epoch >= s.jail_until_epoch {
        ValidatorJailStatus { is_jailed: false, ..s }
    } else {
        s
    }
}

/// The status after an offline check: a free validator silent for more than
/// `OFFLINE_THRESHOLD` slots is jailed for 4 epochs.
pub open spec fn offline_status(s: ValidatorJailStatus, last_vote_slot: u64, current_slot: u64, current_epoch: u64) -> ValidatorJailStatus {
    let silent = (if current_slot >= last_vote_slot { current_slot - last_vote_slot } else { 0 }) > OFFLINE_THRESHOLD;
    if !s.is_jailed && !s.permanently_banned && silent {
        ValidatorJailStatus {
            is_jailed: true,
            jail_until_epoch: (if current_epoch + 4 > u64::MAX { u64::MAX as int } else { current_epoch + 4 }) as u64,
            ..s
        }
    } else {
        s
    }
}

/// The lamports slashed from `own_stake` at `penalty_bps`.
pub fn slash_amount(own_stake: u64, penalty_bps: u64) -> (r: u64)
    ensures
        r == slash_amount_spec(own_stake, penalty_bps),
{
    match own_stake.checked_mul(penalty_bps) {
        Some(v) => v / BPS_DENOM,
        None => own_stake,
    }
}

impl ValidatorJailStatus {
    /// Slashes the validator for `offense` on `own_stake` at `current_epoch`: counts the
    /// offense, jails it (banning it at the offense limit) and returns the lamports slashed. A
    /// banned validator is not slashed again: `None`, nothing changes.
    pub fn slash(&mut self, offense: SlashOffense, own_stake: u64, current_epoch: u64, config: &SlashingConfig) -> (r: Option<u64>)
        ensures
            *final(self) == slashed_status(*old(self), current_epoch, *config),
            old(self).permanently_banned ==> r is None,
            !old(self).permanently_banned ==> r == Some(
                slash_amount_spec(own_stake, penalty_bps_spec(offense, next_count(*old(self)), *config)),
            ),
    {
        if self.permanently_banned {
            return None;
        }
        self.offense_count = self.offense_count.saturating_add(1);
        let penalty_bps = if self.offense_count >= config.max_offenses {
            config.repeat_offense_penalty_bps
        } else {
            match offense {
                SlashOffense::DoubleSigning => config.double_sign_penalty_bps,
                SlashOffense::InvalidBlock => config.invalid_block_penalty_bps,
            }
        };
        let slashed = slash_amount(own_stake, penalty_bps);
        self.is_jailed = true;
        if self.offense_count >= config.max_offenses {
            self.permanently_banned = true;
        } else if self.offense_count >= 2 {
            self.jail_until_epoch = current_epoch.saturating_add(15);
        } else {
            self.jail_until_epoch = current_epoch.saturating_add(4);
        }
        Some(slashed)
    }

    /// Releases the validator from jail once `current_epoch` reaches its term; a banned
    /// validator stays as it is.
    pub fn unjail(&mut self, current_epoch: u64)
        ensures
            *final(self) == unjailed_status(*old(self), current_epoch),
    {
        if self.permanently_banned {
            return;
        }
        if current_epoch >= self.jail_until_epoch {
            self.is_jailed = false;
        }
    }

    /// Jails a free validator for 4 epochs when it has not voted for more than
    /// `OFFLINE_THRESHOLD` slots.
    pub fn check_offline(&mut self, last_vote_slot: u64, current_slot: u64, current_epoch: u64)
        ensures
            *final(self) == offline_status(*old(self), last_vote_slot, current_slot, current_epoch),
    {
        if self.is_jailed || self.permanently_banned {
            return;
        }
        if current_slot.saturating_sub(last_vote_slot) > OFFLINE_THRESHOLD {
            self.is_jailed = true;
            self.jail_until_epoch = current_epoch.saturating_add(4);
        }
    }
}

/// A slash never takes more than the validator's own stake, as long as every penalty is at
/// most 100 %.
pub proof fn law_slash_within_stake(own_stake: u64, penalty_bps: u64)
    requires
        penalty_bps <= BPS_DENOM,
    ensures
        slash_amount_spec(own_stake, penalty_bps) <= own_stake,
{
    if own_stake * penalty_bps <= u64::MAX {
        assert(own_stake * penalty_bps / 10_000 <= own_stake) by (nonlinear_arith)
            requires
                penalty_bps <= 10_000,
                own_stake >= 0,
        ;
    }
}

/// Slashing, unjailing and offline checks keep the ban rule, never lower the offense count,
/// and never lift a ban or release a banned validator.
pub proof fn law_ban_rule_kept(s: ValidatorJailStatus, epoch: u64, last_vote_slot: u64, slot: u64, config: SlashingConfig)
    requires
        ban_consistent(s, config),
    ensures
        ban_consistent(slashed_status(s, epoch, config), config),
        ban_consistent(unjailed_status(s, epoch), config),
        ban_consistent(offline_status(s, last_vote_slot, slot, epoch), config),
        slashed_status(s, epoch, config).offense_count >= s.offense_count,
        unjailed_status(s, epoch).offense_count == s.offense_count,
        offline_status(s, last_vote_slot, slot, epoch).offense_count == s.offense_count,
        s.permanently_banned ==> {
            &&& slashed_status(s, epoch, config).permanently_banned
            &&& unjailed_status(s, epoch).permanently_banned && unjailed_status(s, epoch).is_jailed
            &&& offline_status(s, last_vote_slot, slot, epoch).permanently_banned
        },
{
}

} // verus!

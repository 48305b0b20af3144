//! Saturating integer helpers shared by the fee, rent and staking rules.

use vstd::prelude::*;

verus! {

/// `a * b`, capped at `u64::MAX`.
pub open spec fn sat_mul_spec(a: int, b: int) -> int {
    if a * b > u64::MAX { u64::MAX as int } else { a * b }
}

/// `a + b`, capped at `u64::MAX`.
pub open spec fn sat_add_spec(a: int, b: int) -> int {
    if a + b > u64::MAX { u64::MAX as int } else { a + b }
}

/// `a - b`, floored at zero.
pub open spec fn sat_sub_spec(a: int, b: int) -> int {
    if a - b < 0 { 0 } else { a - b }
}

/// Multiplies two `u64` values, saturating at `u64::MAX`.
pub fn sat_mul(a: u64, b: u64) -> (r: u64)
    ensures
        r == sat_mul_spec(a as int, b as int),
{
    match a.checked_mul(b) {
        Some(v) => v,
        None => u64::MAX,
    }
}

/// Adds two `u64` values, saturating at `u64::MAX`.
pub fn sat_add(a: u64, b: u64) -> (r: u64)
    ensures
        r == sat_add_spec(a as int, b as int),
{
    match a.checked_add(b) {
        Some(v) => v,
        None => u64::MAX,
    }
}

} // verus!

//! Lock periods of passive stake as the command line names them.

use vstd::prelude::*;
use crate::cli::text::{quote, quoted, same_text};

verus! {

/// How long passive stake is locked.
#[derive(Debug, Clone, Copy, PartialEq, Eq, Structural)]
pub enum LockPeriod {
    /// No lock.
    Flexible,
    /// 30 days.
    Days30,
    /// 90 days.
    Days90,
    /// 180 days.
    Days180,
    /// 360 days.
    Days360,
    /// Locked for good.
    Permanent,
}

/// The lock period a command-line value names, if any.
pub open spec fn lock_period_named(s: Seq<char>) -> Option<LockPeriod> {
    if s == "0"@ {
        Some(LockPeriod::Flexible)
    } else if s == "30"@ {
        Some(LockPeriod::Days30)
    } else if s == "90"@ {
        Some(LockPeriod::Days90)
    } else if s == "180"@ {
        Some(LockPeriod::Days180)
    } else if s == "360"@ {
        Some(LockPeriod::Days360)
    } else if s == "permanent"@ {
        Some(LockPeriod::Permanent)
    } else {
        None
    }
}

/// How a lock period is shown.
pub open spec fn lock_period_label(p: LockPeriod) -> Seq<char> {
    match p {
        LockPeriod::Flexible => "0 (flexible)"@,
        LockPeriod::Days30 => "30 days"@,
        LockPeriod::Days90 => "90 days"@,
        LockPeriod::Days180 => "180 days"@,
        LockPeriod::Days360 => "360 days"@,
        LockPeriod::Permanent => "permanent"@,
    }
}

/// The error for an unknown lock period.
pub open spec fn invalid_lock_period_text(s: Seq<char>) -> Seq<char> {
    quoted("Invalid lock period '"@, s, "'. Valid values: 0, 30, 90, 180, 360, permanent"@)
}

fn invalid_lock_period_message(s: &str) -> (r: String)
    ensures
        r@ == invalid_lock_period_text(s@),
{
    quote("Invalid lock period '", s, "'. Valid values: 0, 30, 90, 180, 360, permanent")
}

impl LockPeriod {
    /// Parses `0`, `30`, `90`, `180`, `360` or `permanent`; any other value is an error naming
    /// the valid ones.
    pub fn from_str_value(s: &str) -> (r: Result<Self, String>)
        ensures
            lock_period_named(s@) matches Some(p) ==> r == Ok::<LockPeriod, String>(p),
            lock_period_named(s@) is None ==> (r matches Err(m) && m@ == invalid_lock_period_text(s@)),
    {
        if same_text(s, "0") {
            Ok(LockPeriod::Flexible)
        } else if same_text(s, "30") {
            Ok(LockPeriod::Days30)
        } else if same_text(s, "90") {
            Ok(LockPeriod::Days90)
        } else if same_text(s, "180") {
            Ok(LockPeriod::Days180)
        } else if same_text(s, "360") {
            Ok(LockPeriod::Days360)
        } else if same_text(s, "permanent") {
            Ok(LockPeriod::Permanent)
        } else {
            Err(invalid_lock_period_message(s))
        }
    }

    /// How the lock period is shown.
    pub fn to_string(&self) -> (r: String)
        ensures
            r@ == lock_period_label(*self),
    {
        match self {
            LockPeriod::Flexible => String::from_str("0 (flexible)"),
            LockPeriod::Days30 => String::from_str("30 days"),
            LockPeriod::Days90 => String::from_str("90 days"),
            LockPeriod::Days180 => String::from_str("180 days"),
            LockPeriod::Days360 => String::from_str("360 days"),
            LockPeriod::Permanent => String::from_str("permanent"),
        }
    }
}

/// Accepts a valid lock period.
pub fn is_valid_lock_period(s: String) -> (r: Result<(), String>)
    ensures
        r is Ok <==> lock_period_named(s@) is Some,
        r matches Err(m) ==> m@ == invalid_lock_period_text(s@),
{
    match LockPeriod::from_str_value(s.as_str()) {
        Ok(_) => Ok(()),
        Err(e) => Err(e),
    }
}

} // verus!

//! Text comparison and the quoting of values in error messages.

use vstd::prelude::*;

verus! {

/// Whether two strings hold the same characters.
pub fn same_text(s: &str, t: &str) -> (r: bool)
    ensures
        r == (s@ == t@),
{
    let a = s.to_owned();
    let b = t.to_owned();
    a == b
}

/// `prefix`, then `value`, then `suffix`.
pub open spec fn quoted(prefix: Seq<char>, value: Seq<char>, suffix: Seq<char>) -> Seq<char> {
    prefix + value + suffix
}

/// `prefix`, then `value`, then `suffix`.
pub fn quote(prefix: &str, value: &str, suffix: &str) -> (r: String)
    ensures
        r@ == quoted(prefix@, value@, suffix@),
{
    let mut m = String::new();
    m.append(prefix);
    m.append(value);
    m.append(suffix);
    proof {
        assert(m@ =~= quoted(prefix@, value@, suffix@));
    }
    m
}

} // verus!

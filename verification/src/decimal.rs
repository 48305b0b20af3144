//! Numbers as decimal text, for the messages of the library's errors.

use vstd::prelude::*;

verus! {

/// The decimal digits.
pub open spec fn digits() -> Seq<char> {
    seq!['0', '1', '2', '3', '4', '5', '6', '7', '8', '9']
}

/// `n` in decimal, without leading zeros.
pub open spec fn decimal_spec(n: nat) -> Seq<char>
    decreases n,
{
    if n < 10 {
        seq![digits()[n as int]]
    } else {
        decimal_spec(n / 10) + seq![digits()[(n % 10) as int]]
    }
}

/// `k` zeros.
pub open spec fn zeros(k: int) -> Seq<char> {
    Seq::new(if k > 0 { k as nat } else { 0 }, |i: int| '0')
}

/// The digits of a fraction `f / 10^width` (with `f < 10^width`) after the decimal point,
/// trailing zeros dropped: `f` padded with leading zeros to `width` digits, then cut after its
/// last nonzero digit.
pub open spec fn fraction_spec(f: nat, width: nat) -> Seq<char>
    decreases width,
{
    if f > 0 && f % 10 == 0 && width > 0 {
        fraction_spec(f / 10, (width - 1) as nat)
    } else {
        zeros(width - decimal_spec(f).len()) + decimal_spec(f)
    }
}

/// A count of millionths as `f64` prints the same fraction: the whole part, then the
/// fraction's significant digits after a point, if any.
pub open spec fn ppm_text(ppm: nat) -> Seq<char> {
    if ppm % 1_000_000 == 0 {
        decimal_spec(ppm / 1_000_000)
    } else {
        decimal_spec(ppm / 1_000_000) + "."@ + fraction_spec(ppm % 1_000_000, 6)
    }
}

/// The digit `d`.
fn digit(d: u64) -> (r: &'static str)
    requires
        d < 10,
    ensures
        r@ == seq![digits()[d as int]],
{
    let all = "0123456789";
    proof {
        reveal_strlit("0123456789");
        assert(all@ =~= digits());
    }
    let r = all.substring_ascii(d as usize, d as usize + 1);
    proof {
        assert(r@ =~= seq![digits()[d as int]]);
    }
    r
}

/// `10^k`.
pub open spec fn pow10(k: nat) -> nat
    decreases k,
{
    if k == 0 { 1 } else { 10 * pow10((k - 1) as nat) }
}

proof fn lemma_decimal_len(n: nat, k: nat)
    requires
        1 <= k,
        n < pow10(k),
    ensures
        1 <= decimal_spec(n).len() <= k,
    decreases k,
{
    if n >= 10 {
        if k == 1 {
            assert(pow10(1) == 10) by {
                reveal_with_fuel(pow10, 2);
            }
        } else {
            lemma_decimal_len(n / 10, (k - 1) as nat);
        }
    }
}

/// `n` in decimal.
pub fn decimal(n: u64) -> (r: String)
    ensures
        r@ == decimal_spec(n as nat),
    decreases n,
{
    if n < 10 {
        let mut s = String::new();
        s.append(digit(n));
        proof {
            assert(s@ =~= decimal_spec(n as nat));
        }
        s
    } else {
        let mut s = decimal(n / 10);
        s.append(digit(n % 10));
        s
    }
}

/// `s` behind `k` zeros.
fn pad_zeros(k: usize, s: &str) -> (r: String)
    ensures
        r@ == zeros(k as int) + s@,
{
    let zero = "0";
    proof {
        reveal_strlit("0");
    }
    let mut out = String::new();
    let mut i: usize = 0;
    while i < k
        invariant
            i <= k,
            out@ =~= zeros(i as int),
            zero@ == seq!['0'],
        decreases k - i,
    {
        out.append(zero);
        i = i + 1;
        proof {
            assert(out@ =~= zeros(i as int));
        }
    }
    out.append(s);
    out
}

/// The significant digits of `f / 10^width` after the decimal point (see [`fraction_spec`]).
fn fraction(f: u64, width: usize) -> (r: String)
    requires
        width <= 6,
        f < 1_000_000,
    ensures
        r@ == fraction_spec(f as nat, width as nat),
    decreases width,
{
    if f > 0 && f % 10 == 0 && width > 0 {
        fraction(f / 10, width - 1)
    } else {
        let d = decimal(f);
        let n = d.unicode_len();
        proof {
            reveal_with_fuel(pow10, 7);
            lemma_decimal_len(f as nat, 6);
        }
        let k: usize = if width > n { width - n } else { 0 };
        let r = pad_zeros(k, d.as_str());
        proof {
            assert(zeros(k as int) =~= zeros(width - decimal_spec(f as nat).len()));
        }
        r
    }
}

/// A count of millionths as text, as `f64` prints the same value (see [`ppm_text`]).
pub fn ppm_to_text(ppm: u64) -> (r: String)
    ensures
        r@ == ppm_text(ppm as nat),
{
    let mut s = decimal(ppm / 1_000_000);
    if ppm % 1_000_000 != 0 {
        s.append(".");
        let f = fraction(ppm % 1_000_000, 6);
        s.append(f.as_str());
    }
    s
}

} // verus!

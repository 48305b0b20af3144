//! Where an archived account's cold-storage file lives: two directory levels named by the
//! first two bytes of its key in hex, then the key in base58: `base/ab/cd/<key>.bin`.
//!
//! Paths are joined as on Unix: a separator is added between components unless the base is
//! empty or already ends with one.

use vstd::prelude::*;
use crate::primitives::Pubkey;

verus! {

/// The base58 text of a 32-byte key, as `solana_pubkey` writes it.
pub uninterp spec fn base58_spec(bytes: Seq<u8>) -> Seq<char>;

/// The key in base58, through `solana_pubkey::Pubkey`'s `Display` (`to_string`). The text
/// depends on the key's 32 bytes alone; the contract names it (`base58_spec`) and claims
/// nothing else of it.
#[verifier::external_body]
fn base58_of(pubkey: &Pubkey) -> (r: String)
    ensures
        r@ == base58_spec(pubkey.bytes@),
{
    solana_pubkey::Pubkey::new_from_array(pubkey.bytes).to_string()
}

/// The lower-case hexadecimal digits.
pub open spec fn hex_alphabet() -> Seq<char> {
    seq!['0', '1', '2', '3', '4', '5', '6', '7', '8', '9', 'a', 'b', 'c', 'd', 'e', 'f']
}

/// A byte as two lower-case hexadecimal digits.
pub open spec fn hex_byte_spec(b: u8) -> Seq<char> {
    seq![hex_alphabet()[(b / 16) as int], hex_alphabet()[(b % 16) as int]]
}

/// `base` joined with the relative component `comp`.
pub open spec fn join_spec(base: Seq<char>, comp: Seq<char>) -> Seq<char> {
    if base.len() == 0 || base.last() == '/' {
        base + comp
    } else {
        base + seq!['/'] + comp
    }
}

/// The cold-storage file of `pubkey` under `base`.
pub open spec fn cold_path_spec(base: Seq<char>, pubkey: Pubkey) -> Seq<char> {
    join_spec(
        join_spec(join_spec(base, hex_byte_spec(pubkey.bytes[0])), hex_byte_spec(pubkey.bytes[1])),
        base58_spec(pubkey.bytes@) + ".bin"@,
    )
}

/// The hexadecimal digit of `n` (below 16).
fn hex_digit(n: u8) -> (r: &'static str)
    requires
        n < 16,
    ensures
        r@ == seq![hex_alphabet()[n as int]],
{
    let digits = "0123456789abcdef";
    proof {
        reveal_strlit("0123456789abcdef");
        assert(digits@ =~= hex_alphabet());
    }
    let r = digits.substring_ascii(n as usize, n as usize + 1);
    proof {
        assert(r@ =~= seq![hex_alphabet()[n as int]]);
    }
    r
}

/// A byte as two lower-case hexadecimal digits.
fn hex_byte(b: u8) -> (r: String)
    ensures
        r@ == hex_byte_spec(b),
{
    let mut s = String::new();
    s.append(hex_digit(b / 16));
    s.append(hex_digit(b % 16));
    proof {
        assert(s@ =~= hex_byte_spec(b));
    }
    s
}

/// `base` joined with the relative component `comp`.
fn join(base: String, comp: &str) -> (r: String)
    ensures
        r@ == join_spec(base@, comp@),
{
    let n = base.unicode_len();
    let mut s = base;
    if n == 0 {
        s.append(comp);
    } else if s.get_char(n - 1) == '/' {
        s.append(comp);
    } else {
        let sep = "/";
        proof {
            reveal_strlit("/");
        }
        s.append(sep);
        s.append(comp);
    }
    s
}

/// The cold-storage file of `pubkey` under the directory `base_path`.
pub fn cold_storage_path_for_account(pubkey: &Pubkey, base_path: &str) -> (r: String)
    ensures
        r@ == cold_path_spec(base_path@, *pubkey),
{
    let dir1 = hex_byte(pubkey.bytes[0]);
    let dir2 = hex_byte(pubkey.bytes[1]);
    let mut file = base58_of(pubkey);
    file.append(".bin");
    let p = join(join(join(base_path.to_owned(), dir1.as_str()), dir2.as_str()), file.as_str());
    p
}

} // verus!

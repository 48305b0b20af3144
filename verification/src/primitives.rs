//! Fixed-size byte identifiers (public keys, 32-byte digests, signatures),
//! their equality and canonical order, little-endian encodings, and SHA-256.

use vstd::prelude::*;

verus! {

/// A 32-byte public key (an account or a validator identity).
#[derive(Debug, Clone, Copy, PartialOrd, Ord, Hash)]
pub struct Pubkey {
    pub bytes: [u8; 32],
}

/// A 32-byte SHA-256 digest.
#[derive(Debug, Clone, Copy, Hash)]
pub struct Hash32 {
    pub bytes: [u8; 32],
}

/// A 64-byte signature.
#[derive(Debug, Clone, Copy)]
pub struct Signature {
    pub bytes: [u8; 64],
}

/// Compares two 32-byte arrays element by element.
pub fn bytes32_eq(a: &[u8; 32], b: &[u8; 32]) -> (r: bool)
    ensures
        r == (a@ == b@),
{
    let mut i: usize = 0;
    while i < 32
        invariant
            0 <= i <= 32,
            a@.len() == 32,
            b@.len() == 32,
            forall|j: int| 0 <= j < i ==> a@[j] == b@[j],
        decreases 32 - i,
    {
        if a[i] != b[i] {
            return false;
        }
        i = i + 1;
    }
    assert(a@ =~= b@);
    true
}

/// Compares two 64-byte arrays element by element.
pub fn bytes64_eq(a: &[u8; 64], b: &[u8; 64]) -> (r: bool)
    ensures
        r == (a@ == b@),
{
    let mut i: usize = 0;
    while i < 64
        invariant
            0 <= i <= 64,
            a@.len() == 64,
            b@.len() == 64,
            forall|j: int| 0 <= j < i ==> a@[j] == b@[j],
        decreases 64 - i,
    {
        if a[i] != b[i] {
            return false;
        }
        i = i + 1;
    }
    assert(a@ =~= b@);
    true
}

/// Two keys with the same bytes are the same key.
pub proof fn lemma_pubkey_ext(a: Pubkey, b: Pubkey)
    requires
        a.bytes@ == b.bytes@,
    ensures
        a == b,
{
    assert(a.bytes == b.bytes);
}

/// Two digests with the same bytes are the same digest.
pub proof fn lemma_hash_ext(a: Hash32, b: Hash32)
    requires
        a.bytes@ == b.bytes@,
    ensures
        a == b,
{
    assert(a.bytes == b.bytes);
}

impl PartialEq for Pubkey {
    fn eq(&self, other: &Self) -> (r: bool) {
        let r = bytes32_eq(&self.bytes, &other.bytes);
        proof {
            if r {
                lemma_pubkey_ext(*self, *other);
            }
        }
        r
    }
}

impl vstd::std_specs::cmp::PartialEqSpecImpl for Pubkey {
    open spec fn obeys_eq_spec() -> bool {
        true
    }

    open spec fn eq_spec(&self, other: &Self) -> bool {
        *self == *other
    }
}

impl Eq for Pubkey {}

impl PartialEq for Hash32 {
    fn eq(&self, other: &Self) -> (r: bool) {
        let r = bytes32_eq(&self.bytes, &other.bytes);
        proof {
            if r {
                lemma_hash_ext(*self, *other);
            }
        }
        r
    }
}

impl vstd::std_specs::cmp::PartialEqSpecImpl for Hash32 {
    open spec fn obeys_eq_spec() -> bool {
        true
    }

    open spec fn eq_spec(&self, other: &Self) -> bool {
        *self == *other
    }
}

impl Eq for Hash32 {}

impl PartialEq for Signature {
    fn eq(&self, other: &Self) -> (r: bool) {
        let r = bytes64_eq(&self.bytes, &other.bytes);
        proof {
            if r {
                assert(self.bytes == other.bytes);
            }
        }
        r
    }
}

impl vstd::std_specs::cmp::PartialEqSpecImpl for Signature {
    open spec fn obeys_eq_spec() -> bool {
        true
    }

    open spec fn eq_spec(&self, other: &Self) -> bool {
        *self == *other
    }
}

impl Eq for Signature {}

impl Default for Pubkey {
    /// The all-zero key.
    fn default() -> (r: Self)
        ensures
            forall|i: int| 0 <= i < 32 ==> r.bytes@[i] == 0,
    {
        Pubkey { bytes: [0u8; 32] }
    }
}

impl Default for Hash32 {
    /// The all-zero digest.
    fn default() -> (r: Self)
        ensures
            forall|i: int| 0 <= i < 32 ==> r.bytes@[i] == 0,
    {
        Hash32 { bytes: [0u8; 32] }
    }
}

impl Default for Signature {
    /// The all-zero signature.
    fn default() -> (r: Self)
        ensures
            is_zero_signature(r),
    {
        Signature { bytes: [0u8; 64] }
    }
}

/// Whether a signature is the all-zero placeholder of messages that are not signed yet.
pub open spec fn is_zero_signature(s: Signature) -> bool {
    forall|i: int| 0 <= i < 64 ==> s.bytes@[i] == 0
}

/// Lexicographic order on equal-length byte sequences, from index `i` on.
pub open spec fn bytes_lt_from(a: Seq<u8>, b: Seq<u8>, i: int) -> bool
    decreases a.len() - i,
{
    if i < 0 || i >= a.len() || i >= b.len() {
        false
    } else if a[i] < b[i] {
        true
    } else if a[i] > b[i] {
        false
    } else {
        bytes_lt_from(a, b, i + 1)
    }
}

/// Strict lexicographic order on keys, by their bytes.
pub open spec fn pubkey_lt_spec(a: Pubkey, b: Pubkey) -> bool {
    bytes_lt_from(a.bytes@, b.bytes@, 0)
}

/// Whether `a` precedes `b` in the byte-lexicographic order of keys.
pub fn pubkey_lt(a: &Pubkey, b: &Pubkey) -> (r: bool)
    ensures
        r == pubkey_lt_spec(*a, *b),
{
    let mut i: usize = 0;
    while i < 32
        invariant
            0 <= i <= 32,
            a.bytes@.len() == 32,
            b.bytes@.len() == 32,
            bytes_lt_from(a.bytes@, b.bytes@, 0) == bytes_lt_from(a.bytes@, b.bytes@, i as int),
        decreases 32 - i,
    {
        if a.bytes[i] < b.bytes[i] {
            return true;
        }
        if a.bytes[i] > b.bytes[i] {
            return false;
        }
        i = i + 1;
    }
    false
}

proof fn lemma_bytes_lt_asym(a: Seq<u8>, b: Seq<u8>, i: int)
    requires
        a.len() == b.len(),
        0 <= i,
    ensures
        !(bytes_lt_from(a, b, i) && bytes_lt_from(b, a, i)),
        !bytes_lt_from(a, a, i),
    decreases a.len() - i,
{
    if i < a.len() {
        lemma_bytes_lt_asym(a, b, i + 1);
    }
}

proof fn lemma_bytes_lt_total(a: Seq<u8>, b: Seq<u8>, i: int)
    requires
        a.len() == b.len(),
        0 <= i <= a.len(),
        !bytes_lt_from(a, b, i),
        !bytes_lt_from(b, a, i),
    ensures
        forall|j: int| i <= j < a.len() ==> a[j] == b[j],
    decreases a.len() - i,
{
    if i < a.len() {
        lemma_bytes_lt_total(a, b, i + 1);
    }
}

proof fn lemma_bytes_lt_trans(a: Seq<u8>, b: Seq<u8>, c: Seq<u8>, i: int)
    requires
        a.len() == b.len(),
        b.len() == c.len(),
        0 <= i,
        bytes_lt_from(a, b, i),
        bytes_lt_from(b, c, i),
    ensures
        bytes_lt_from(a, c, i),
    decreases a.len() - i,
{
    if i < a.len() && a[i] == b[i] && b[i] == c[i] {
        lemma_bytes_lt_trans(a, b, c, i + 1);
    }
}

/// The key order is a strict total order: irreflexive, asymmetric, transitive, and any two
/// distinct keys are comparable.
pub proof fn lemma_pubkey_order(a: Pubkey, b: Pubkey, c: Pubkey)
    ensures
        !pubkey_lt_spec(a, a),
        !(pubkey_lt_spec(a, b) && pubkey_lt_spec(b, a)),
        pubkey_lt_spec(a, b) && pubkey_lt_spec(b, c) ==> pubkey_lt_spec(a, c),
        a != b ==> pubkey_lt_spec(a, b) || pubkey_lt_spec(b, a),
{
    lemma_bytes_lt_asym(a.bytes@, b.bytes@, 0);
    lemma_bytes_lt_asym(a.bytes@, a.bytes@, 0);
    if pubkey_lt_spec(a, b) && pubkey_lt_spec(b, c) {
        lemma_bytes_lt_trans(a.bytes@, b.bytes@, c.bytes@, 0);
    }
    if !pubkey_lt_spec(a, b) && !pubkey_lt_spec(b, a) {
        lemma_bytes_lt_total(a.bytes@, b.bytes@, 0);
        assert(a.bytes@ =~= b.bytes@);
        lemma_pubkey_ext(a, b);
    }
}

/// The `n`-byte little-endian encoding of `x` (truncated to `n` bytes).
pub open spec fn le_bytes(x: nat, n: nat) -> Seq<u8>
    decreases n,
{
    if n == 0 {
        Seq::empty()
    } else {
        seq![(x % 256) as u8] + le_bytes(x / 256, (n - 1) as nat)
    }
}

/// Appends the `n`-byte little-endian encoding of `x` (modulo `256^n`) to `out`.
pub fn push_le(out: &mut Vec<u8>, x: u64, n: usize)
    ensures
        final(out)@ == old(out)@ + le_bytes(x as nat, n as nat),
{
    let mut v: u64 = x;
    let mut k: usize = 0;
    let ghost start = old(out)@;
    while k < n
        invariant
            0 <= k <= n,
            start + le_bytes(x as nat, n as nat) == out@ + le_bytes(v as nat, (n - k) as nat),
        decreases n - k,
    {
        let ghost before = out@;
        let b = (v % 256) as u8;
        out.push(b);
        assert(le_bytes(v as nat, (n - k) as nat) == seq![b] + le_bytes((v / 256) as nat, (n - k - 1) as nat));
        assert(before + (seq![b] + le_bytes((v / 256) as nat, (n - k - 1) as nat))
            =~= out@ + le_bytes((v / 256) as nat, (n - k - 1) as nat));
        v = v / 256;
        k = k + 1;
    }
    assert(out@ + le_bytes(v as nat, 0) =~= out@);
}

/// Appends the 8-byte little-endian encoding of `x` to `out`.
pub fn push_u64_le(out: &mut Vec<u8>, x: u64)
    ensures
        final(out)@ == old(out)@ + le_bytes(x as nat, 8),
{
    push_le(out, x, 8);
}

/// Appends all bytes of a 32-byte array to `out`.
pub fn push_bytes32(out: &mut Vec<u8>, bytes: &[u8; 32])
    ensures
        final(out)@ == old(out)@ + bytes@,
{
    let mut i: usize = 0;
    let ghost start = old(out)@;
    while i < 32
        invariant
            0 <= i <= 32,
            bytes@.len() == 32,
            out@ == start + bytes@.subrange(0, i as int),
        decreases 32 - i,
    {
        out.push(bytes[i]);
        assert(start + bytes@.subrange(0, i + 1) =~= start + bytes@.subrange(0, i as int) + seq![bytes@[i as int]]);
        i = i + 1;
    }
    assert(bytes@.subrange(0, 32) =~= bytes@);
}

/// The SHA-256 digest of a byte string, as computed by `solana_sha256_hasher::hash`.
pub uninterp spec fn sha256_spec(data: Seq<u8>) -> Seq<u8>;

/// SHA-256 of `data`, through `solana_sha256_hasher::hash`.
///
/// Trusted: the contract only names the digest (`sha256_spec`) as a function of the input
/// bytes; it claims nothing else about SHA-256.
#[verifier::external_body]
pub(crate) fn sha256(data: &[u8]) -> (r: Hash32)
    ensures
        r.bytes@ == sha256_spec(data@),
{
    Hash32 { bytes: solana_sha256_hasher::hash(data).to_bytes() }
}

} // verus!

//! The cold-storage file format of an archived account:
//! `[lamports: 8 LE][owner: 32][executable: 1][data_len: 8 LE][data]`.

use vstd::prelude::*;
use vstd::arithmetic::power::pow;
use crate::primitives::{Pubkey, le_bytes, push_bytes32, push_u64_le};
use crate::accounts::account::{AccountData, AccountView};
use crate::accounts::rent::push_all;

verus! {

/// Size of the fixed header: lamports, owner, executable flag and data length.
pub const COLD_HEADER_LEN: usize = 49;

/// Why stored bytes do not decode to an account.
#[derive(Debug, Clone, Copy, PartialEq, Eq)]
pub enum ColdStorageError {
    /// Fewer bytes than the 49-byte header.
    TooShort,
    /// The header announces `expected` data bytes but only `got` follow it.
    Truncated { expected: u64, got: usize },
}

/// The little-endian value of a byte sequence.
pub open spec fn le_value(s: Seq<u8>) -> nat
    decreases s.len(),
{
    if s.len() == 0 {
        0
    } else {
        s[0] as nat + 256 * le_value(s.drop_first())
    }
}

/// The stored form of an account.
pub open spec fn encode_spec(a: AccountView) -> Seq<u8> {
    le_bytes(a.lamports as nat, 8) + a.owner.bytes@ + seq![if a.executable { 1u8 } else { 0u8 }]
        + le_bytes(a.data.len(), 8) + a.data
}

/// The account stored in `bytes`, or why there is none.
pub open spec fn decode_spec(bytes: Seq<u8>) -> Result<AccountView, ColdStorageError> {
    if bytes.len() < 49 {
        Err(ColdStorageError::TooShort)
    } else {
        let data_len = le_value(bytes.subrange(41, 49));
        if bytes.len() - 49 < data_len {
            Err(ColdStorageError::Truncated { expected: data_len as u64, got: (bytes.len() - 49) as usize })
        } else {
            Ok(AccountView {
                lamports: le_value(bytes.subrange(0, 8)) as u64,
                owner: Pubkey { bytes: choose|a: [u8; 32]| a@ == bytes.subrange(8, 40) },
                executable: bytes[40] != 0,
                data: bytes.subrange(49, 49 + data_len as int),
            })
        }
    }
}

/// Serializes an account for cold storage.
pub fn serialize_account_for_cold_storage(account: &AccountData) -> (r: Vec<u8>)
    ensures
        r@ == encode_spec(account@),
{
    let mut buf: Vec<u8> = Vec::new();
    push_u64_le(&mut buf, account.lamports);
    push_bytes32(&mut buf, &account.owner.bytes);
    buf.push(if account.executable { 1u8 } else { 0u8 });
    push_u64_le(&mut buf, account.data.len() as u64);
    push_all(&mut buf, account.data.as_slice());
    proof {
        assert(buf@ =~= encode_spec(account@));
    }
    buf
}

/// A little-endian value of `n` bytes is below `256^n`.
pub proof fn lemma_le_value_bound(s: Seq<u8>)
    ensures
        le_value(s) < pow(256, s.len()),
    decreases s.len(),
{
    vstd::arithmetic::power::lemma_pow_positive(256, s.len());
    if s.len() > 0 {
        lemma_le_value_bound(s.drop_first());
        vstd::arithmetic::power::lemma_pow_adds(256, 1, (s.len() - 1) as nat);
        vstd::arithmetic::power::lemma_pow1(256);
        let p = pow(256, (s.len() - 1) as nat);
        assert(s[0] as nat + 256 * le_value(s.drop_first()) < 256 * p) by (nonlinear_arith)
            requires
                s[0] < 256,
                le_value(s.drop_first()) < p,
        ;
    }
}

/// Decoding `n` little-endian bytes of a value below `256^n` gives the value back.
pub proof fn lemma_le_roundtrip(x: nat, n: nat)
    requires
        x < pow(256, n),
    ensures
        le_value(le_bytes(x, n)) == x,
        le_bytes(x, n).len() == n,
    decreases n,
{
    if n == 0 {
        vstd::arithmetic::power::lemma_pow0(256);
    } else {
        vstd::arithmetic::power::lemma_pow_adds(256, 1, (n - 1) as nat);
        vstd::arithmetic::power::lemma_pow1(256);
        let p = pow(256, (n - 1) as nat);
        assert(x / 256 < p) by (nonlinear_arith)
            requires
                x < 256 * p,
        ;
        lemma_le_roundtrip(x / 256, (n - 1) as nat);
        assert(le_bytes(x, n).drop_first() =~= le_bytes(x / 256, (n - 1) as nat));
    }
}

proof fn lemma_pow256_8()
    ensures
        pow(256, 8) == 0x1_0000_0000_0000_0000,
{
    reveal_with_fuel(pow, 9);
}

/// Decodes 8 little-endian bytes starting at `start`.
fn read_u64_le(bytes: &[u8], start: usize) -> (r: u64)
    requires
        start + 8 <= bytes@.len(),
    ensures
        r == le_value(bytes@.subrange(start as int, start + 8)),
{
    proof {
        lemma_le_value_bound(bytes@.subrange(start as int, start + 8));
        lemma_pow256_8();
        vstd::arithmetic::power::lemma_pow0(256);
        assert(bytes@.subrange(start + 8, start + 8) =~= Seq::<u8>::empty());
    }
    let n = bytes.len();
    let mut acc: u128 = 0;
    let mut k: usize = 8;
    while k > 0
        invariant
            0 <= k <= 8,
            n == bytes@.len(),
            start + 8 <= bytes@.len(),
            acc == le_value(bytes@.subrange(start + k, start + 8)),
            acc < pow(256, (8 - k) as nat),
            pow(256, 8) == 0x1_0000_0000_0000_0000,
        decreases k,
    {
        let b = bytes[start + k - 1];
        proof {
            let s = bytes@.subrange(start + k - 1, start + 8);
            assert(s.drop_first() =~= bytes@.subrange(start + k, start + 8));
            vstd::arithmetic::power::lemma_pow_adds(256, 1, (8 - k) as nat);
            vstd::arithmetic::power::lemma_pow1(256);
            vstd::arithmetic::power::lemma_pow_increases(256, (9 - k) as nat, 8);
            let p = pow(256, (8 - k) as nat);
            assert(b + 256 * acc < 256 * p) by (nonlinear_arith)
                requires
                    b < 256,
                    acc < p,
            ;
        }
        acc = b as u128 + 256 * acc;
        k = k - 1;
    }
    acc as u64
}

/// Decodes an account from its stored form.
pub fn deserialize_account_from_cold_storage(data: &[u8]) -> (r: Result<AccountData, ColdStorageError>)
    ensures
        match decode_spec(data@) {
            Ok(a) => r matches Ok(acct) && acct@ == a,
            Err(e) => r == Err::<AccountData, ColdStorageError>(e),
        },
{
    if data.len() < COLD_HEADER_LEN {
        return Err(ColdStorageError::TooShort);
    }
    let lamports = read_u64_le(data, 0);
    let mut owner_bytes: [u8; 32] = [0u8; 32];
    let mut i: usize = 0;
    while i < 32
        invariant
            0 <= i <= 32,
            data@.len() >= 49,
            owner_bytes@.len() == 32,
            forall|j: int| 0 <= j < i ==> owner_bytes@[j] == data@[8 + j],
        decreases 32 - i,
    {
        owner_bytes[i] = data[8 + i];
        i = i + 1;
    }
    let executable = data[40] != 0;
    let data_len = read_u64_le(data, 41);
    let available = data.len() - COLD_HEADER_LEN;
    if (available as u64) < data_len {
        return Err(ColdStorageError::Truncated { expected: data_len, got: available });
    }
    let end = COLD_HEADER_LEN + data_len as usize;
    let mut payload: Vec<u8> = Vec::new();
    let mut k: usize = COLD_HEADER_LEN;
    while k < end
        invariant
            49 <= k <= end,
            end <= data@.len(),
            payload@ == data@.subrange(49, k as int),
        decreases end - k,
    {
        payload.push(data[k]);
        proof {
            assert(data@.subrange(49, k + 1) =~= data@.subrange(49, k as int).push(data@[k as int]));
        }
        k = k + 1;
    }
    let owner = Pubkey { bytes: owner_bytes };
    proof {
        assert(owner_bytes@ =~= data@.subrange(8, 40));
        let c = choose|a: [u8; 32]| a@ == data@.subrange(8, 40);
        assert(c@ == owner_bytes@);
        assert(c == owner_bytes);
    }
    Ok(AccountData { lamports, owner, executable, data: payload })
}

/// Decoding the stored form of an account gives the account back.
pub proof fn law_cold_storage_roundtrip(a: AccountView)
    requires
        a.data.len() <= u64::MAX,
    ensures
        decode_spec(encode_spec(a)) == Ok::<AccountView, ColdStorageError>(a),
        encode_spec(a).len() == 49 + a.data.len(),
{
    lemma_pow256_8();
    lemma_le_roundtrip(a.lamports as nat, 8);
    lemma_le_roundtrip(a.data.len(), 8);
    let e = encode_spec(a);
    assert(e.subrange(0, 8) =~= le_bytes(a.lamports as nat, 8));
    assert(e.subrange(8, 40) =~= a.owner.bytes@);
    assert(e.subrange(41, 49) =~= le_bytes(a.data.len(), 8));
    assert(e.subrange(49, 49 + a.data.len() as int) =~= a.data);
    let c = choose|x: [u8; 32]| x@ == e.subrange(8, 40);
    assert(c@ == a.owner.bytes@);
    assert(c == a.owner.bytes);
    let d = decode_spec(e);
    assert(d->Ok_0 =~= a);
}

} // verus!

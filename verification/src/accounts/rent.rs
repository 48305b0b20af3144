//! State-rent expiry: when accounts are archived, what reviving one costs, and the checks a
//! revived account must pass.

use vstd::prelude::*;
use crate::arith::{sat_mul, sat_mul_spec};
use crate::primitives::{Hash32, Pubkey, le_bytes, push_bytes32, push_u64_le, sha256, sha256_spec, bytes32_eq};
use crate::accounts::account::{AccountData, AccountView};
use vstd::arithmetic::power2::{pow2, lemma2_to64, lemma_pow2_pos, lemma_pow2_unfold};
use vstd::arithmetic::div_mod::{lemma_basic_div, lemma_div_denominator};

verus! {

/// Default lamports charged per byte per year.
pub const DEFAULT_LAMPORTS_PER_BYTE_YEAR: u64 = 3_480;

/// Default days of inactivity before archival.
pub const DEFAULT_ARCHIVE_AFTER_DAYS: u64 = 365;

/// Estimated slots per day at 400 ms slots.
pub const ESTIMATED_SLOTS_PER_DAY: u64 = 216_000;

/// Accounts with less data than this are never archived.
pub const MIN_ARCHIVAL_DATA_SIZE: usize = 128;

/// Years of rent a revival deposit must cover.
pub const MIN_REVIVAL_RENT_YEARS: u64 = 2;

/// Configuration of rent expiry.
#[derive(Debug)]
pub struct StateRentConfig {
    /// Rent per byte per year, in lamports.
    pub lamports_per_byte_year: u64,
    /// Days without writes before an account may be archived.
    pub archive_after_days: u64,
    /// Whether archived accounts may be revived.
    pub allow_revival: bool,
    /// Directory of cold storage.
    pub cold_storage_path: String,
    /// Whether accounts owned by system programs are exempt.
    pub exempt_system_programs: bool,
}

impl Clone for StateRentConfig {
    fn clone(&self) -> (r: Self)
        ensures
            r == *self,
    {
        StateRentConfig {
            lamports_per_byte_year: self.lamports_per_byte_year,
            archive_after_days: self.archive_after_days,
            allow_revival: self.allow_revival,
            cold_storage_path: self.cold_storage_path.clone(),
            exempt_system_programs: self.exempt_system_programs,
        }
    }
}

/// `data_len * lamports_per_byte_year * years`, each product saturating.
pub open spec fn rent_spec(lamports_per_byte_year: u64, data_len: usize, years: u64) -> int {
    sat_mul_spec(sat_mul_spec(data_len as int, lamports_per_byte_year as int), years as int)
}

impl Default for StateRentConfig {
    /// 3_480 lamports per byte-year, archival after 365 days, revival allowed, system
    /// programs exempt, cold storage in `trv1-cold-storage`.
    fn default() -> (r: Self)
        ensures
            r.lamports_per_byte_year == DEFAULT_LAMPORTS_PER_BYTE_YEAR,
            r.archive_after_days == DEFAULT_ARCHIVE_AFTER_DAYS,
            r.allow_revival,
            r.cold_storage_path@ == "trv1-cold-storage"@,
            r.exempt_system_programs,
    {
        StateRentConfig {
            lamports_per_byte_year: DEFAULT_LAMPORTS_PER_BYTE_YEAR,
            archive_after_days: DEFAULT_ARCHIVE_AFTER_DAYS,
            allow_revival: true,
            cold_storage_path: String::from_str("trv1-cold-storage"),
            exempt_system_programs: true,
        }
    }
}

impl StateRentConfig {
    /// A configuration with short thresholds for tests.
    pub fn for_testing() -> (r: Self)
        ensures
            r.lamports_per_byte_year == 1_000,
            r.archive_after_days == 1,
            r.allow_revival,
            r.cold_storage_path@ == "/tmp/trv1-test-cold"@,
            !r.exempt_system_programs,
    {
        StateRentConfig {
            lamports_per_byte_year: 1_000,
            archive_after_days: 1,
            allow_revival: true,
            cold_storage_path: String::from_str("/tmp/trv1-test-cold"),
            exempt_system_programs: false,
        }
    }

    /// Rent owed by `data_len` bytes over `years`, saturating.
    pub fn calculate_rent(&self, data_len: usize, years: u64) -> (r: u64)
        ensures
            r == rent_spec(self.lamports_per_byte_year, data_len, years),
    {
        sat_mul(sat_mul(data_len as u64, self.lamports_per_byte_year), years)
    }

    /// The balance that keeps `data_len` bytes active for `years`.
    pub fn minimum_balance(&self, data_len: usize, years: u64) -> (r: u64)
        ensures
            r == rent_spec(self.lamports_per_byte_year, data_len, years),
    {
        self.calculate_rent(data_len, years)
    }

    /// The deposit required to revive an account of `data_len` bytes: two years of rent.
    pub fn revival_deposit(&self, data_len: usize) -> (r: u64)
        ensures
            r == rent_spec(self.lamports_per_byte_year, data_len, MIN_REVIVAL_RENT_YEARS),
    {
        self.calculate_rent(data_len, MIN_REVIVAL_RENT_YEARS)
    }
}

/// The keys of the System Program, BPF Loader, Token Program and Stake Program.
pub open spec fn system_program_ids() -> Seq<Seq<u8>> {
    seq![
        seq![0u8, 0, 0, 0, 0, 0, 0, 0, 0, 0, 0, 0, 0, 0, 0, 0, 0, 0, 0, 0, 0, 0, 0, 0, 0, 0, 0, 0, 0, 0, 0, 0],
        seq![2u8, 168, 246, 145, 78, 136, 161, 107, 189, 35, 149, 133, 95, 100, 4, 217, 180, 244,
            86, 183, 130, 27, 176, 20, 87, 73, 66, 140, 0, 0, 0, 0],
        seq![6u8, 221, 246, 225, 215, 101, 161, 147, 217, 203, 225, 70, 206, 235, 121, 172, 28,
            180, 133, 237, 95, 91, 55, 145, 58, 140, 245, 133, 126, 255, 0, 169],
        seq![6u8, 161, 216, 23, 145, 55, 84, 42, 152, 52, 55, 189, 254, 42, 122, 178, 85, 127, 83,
            92, 138, 120, 114, 43, 104, 164, 157, 192, 0, 0, 0, 0],
    ]
}

/// Whether `owner` is one of the well-known system programs.
pub open spec fn is_system_program_spec(owner: Pubkey) -> bool {
    system_program_ids().contains(owner.bytes@)
}

/// Whether `owner` is one of the well-known system programs exempt from archival.
pub fn is_system_program(owner: &Pubkey) -> (r: bool)
    ensures
        r == is_system_program_spec(*owner),
{
    let ids: [[u8; 32]; 4] = [
        [0u8; 32],
        [2, 168, 246, 145, 78, 136, 161, 107, 189, 35, 149, 133, 95, 100, 4, 217, 180, 244,
            86, 183, 130, 27, 176, 20, 87, 73, 66, 140, 0, 0, 0, 0],
        [6, 221, 246, 225, 215, 101, 161, 147, 217, 203, 225, 70, 206, 235, 121, 172, 28,
            180, 133, 237, 95, 91, 55, 145, 58, 140, 245, 133, 126, 255, 0, 169],
        [6, 161, 216, 23, 145, 55, 84, 42, 152, 52, 55, 189, 254, 42, 122, 178, 85, 127, 83,
            92, 138, 120, 114, 43, 104, 164, 157, 192, 0, 0, 0, 0],
    ];
    proof {
        assert(ids@[0]@ =~= system_program_ids()[0]);
        assert(ids@[1]@ =~= system_program_ids()[1]);
        assert(ids@[2]@ =~= system_program_ids()[2]);
        assert(ids@[3]@ =~= system_program_ids()[3]);
        assert(ids@.map_values(|a: [u8; 32]| a@) =~= system_program_ids());
    }
    let mut i: usize = 0;
    while i < 4
        invariant
            0 <= i <= 4,
            ids@.map_values(|a: [u8; 32]| a@) == system_program_ids(),
            forall|j: int| 0 <= j < i ==> system_program_ids()[j] != owner.bytes@,
        decreases 4 - i,
    {
        if bytes32_eq(&owner.bytes, &ids[i]) {
            proof {
                assert(system_program_ids()[i as int] == owner.bytes@);
            }
            return true;
        }
        i = i + 1;
    }
    false
}

/// The System Program's key, `11111111111111111111111111111111`.
pub open spec fn system_program_key() -> Seq<u8> {
    Seq::new(32, |i: int| 0u8)
}

/// The upgradeable BPF Loader's key, `BPFLoaderUpgradeab1e11111111111111111111111`.
pub open spec fn bpf_loader_key() -> Seq<u8> {
    seq![2u8, 168, 246, 145, 78, 136, 161, 107, 189, 35, 149, 133, 95, 100, 4, 217, 180, 244,
        86, 183, 130, 27, 176, 20, 87, 73, 66, 140, 0, 0, 0, 0]
}

/// The Token Program's key, `TokenkegQfeZyiNwAJbNbGKPFXCWuBvf9Ss623VQ5DA`.
pub open spec fn token_program_key() -> Seq<u8> {
    seq![6u8, 221, 246, 225, 215, 101, 161, 147, 217, 203, 225, 70, 206, 235, 121, 172, 28,
        180, 133, 237, 95, 91, 55, 145, 58, 140, 245, 133, 126, 255, 0, 169]
}

/// The Stake Program's key, `Stake11111111111111111111111111111111111111`.
pub open spec fn stake_program_key() -> Seq<u8> {
    seq![6u8, 161, 216, 23, 145, 55, 84, 42, 152, 52, 55, 189, 254, 42, 122, 178, 85, 127, 83,
        92, 138, 120, 114, 43, 104, 164, 157, 192, 0, 0, 0, 0]
}

/// The system programs are exactly the System Program, the upgradeable BPF Loader, the Token
/// Program and the Stake Program; while `exempt_system_programs` is set, an account owned by
/// one of them is never archived, whatever its size, balance and inactivity.
pub proof fn law_system_program_accounts_never_expire(
    account: AccountView,
    last_active_slot: u64,
    current_slot: u64,
    config: StateRentConfig,
)
    ensures
        is_system_program_spec(account.owner) <==> (account.owner.bytes@ == system_program_key()
            || account.owner.bytes@ == bpf_loader_key() || account.owner.bytes@ == token_program_key()
            || account.owner.bytes@ == stake_program_key()),
        config.exempt_system_programs && (account.owner.bytes@ == system_program_key()
            || account.owner.bytes@ == bpf_loader_key() || account.owner.bytes@ == token_program_key()
            || account.owner.bytes@ == stake_program_key()) ==> !rent_expired_spec(
            account,
            last_active_slot,
            current_slot,
            config,
        ),
{
    let ids = system_program_ids();
    assert(ids[0] =~= system_program_key());
    assert(ids[1] =~= bpf_loader_key());
    assert(ids[2] =~= token_program_key());
    assert(ids[3] =~= stake_program_key());
    let k = account.owner.bytes@;
    if k == system_program_key() || k == bpf_loader_key() || k == token_program_key() || k
        == stake_program_key() {
        if k == system_program_key() {
            assert(ids[0] == k);
        } else if k == bpf_loader_key() {
            assert(ids[1] == k);
        } else if k == token_program_key() {
            assert(ids[2] == k);
        } else {
            assert(ids[3] == k);
        }
        assert(ids.contains(k));
    }
    if ids.contains(k) {
        let j = choose|j: int| 0 <= j < ids.len() && ids[j] == k;
        assert(j == 0 || j == 1 || j == 2 || j == 3);
    }
}

/// Whether an account may be archived: at least `MIN_ARCHIVAL_DATA_SIZE` bytes of data, a
/// nonzero balance, not exempt as a system-program account, and inactive for at least
/// `archive_after_days` whole days of `ESTIMATED_SLOTS_PER_DAY` slots.
pub open spec fn rent_expired_spec(account: AccountView, last_active_slot: u64, current_slot: u64, config: StateRentConfig) -> bool {
    &&& account.data.len() >= MIN_ARCHIVAL_DATA_SIZE
    &&& account.lamports != 0
    &&& !(config.exempt_system_programs && is_system_program_spec(account.owner))
    &&& (if current_slot >= last_active_slot { current_slot - last_active_slot } else { 0 }) / (ESTIMATED_SLOTS_PER_DAY as int)
        >= config.archive_after_days
}

/// Whether `account` should be archived at `current_slot`, given the slot of its last write.
pub fn check_rent_expiry(account: &AccountData, last_active_slot: u64, current_slot: u64, config: &StateRentConfig) -> (r: bool)
    ensures
        r == rent_expired_spec(account@, last_active_slot, current_slot, *config),
{
    if account.data.len() < MIN_ARCHIVAL_DATA_SIZE {
        return false;
    }
    if account.lamports == 0 {
        return false;
    }
    if config.exempt_system_programs && is_system_program(&account.owner) {
        return false;
    }
    let inactive_slots = current_slot.saturating_sub(last_active_slot);
    let inactive_days = inactive_slots / ESTIMATED_SLOTS_PER_DAY;
    inactive_days >= config.archive_after_days
}

/// The bytes hashed for an account's integrity hash: key, balance (little-endian), owner,
/// executable flag and data.
pub open spec fn account_preimage(pubkey: Pubkey, account: AccountView) -> Seq<u8> {
    pubkey.bytes@ + le_bytes(account.lamports as nat, 8) + account.owner.bytes@
        + seq![if account.executable { 1u8 } else { 0u8 }] + account.data
}

/// Appends a byte slice to `out`.
pub fn push_all(out: &mut Vec<u8>, bytes: &[u8])
    ensures
        final(out)@ == old(out)@ + bytes@,
{
    let mut i: usize = 0;
    let ghost start = old(out)@;
    while i < bytes.len()
        invariant
            0 <= i <= bytes@.len(),
            out@ == start + bytes@.subrange(0, i as int),
        decreases bytes@.len() - i,
    {
        out.push(bytes[i]);
        assert(start + bytes@.subrange(0, i + 1) =~= start + bytes@.subrange(0, i as int) + seq![bytes@[i as int]]);
        i = i + 1;
    }
    assert(bytes@.subrange(0, bytes@.len() as int) =~= bytes@);
}

/// The integrity hash of an account: SHA-256 over key, balance, owner, executable flag and data.
pub fn compute_account_hash(pubkey: &Pubkey, account: &AccountData) -> (r: Hash32)
    ensures
        r.bytes@ == sha256_spec(account_preimage(*pubkey, account@)),
{
    let mut input: Vec<u8> = Vec::new();
    push_bytes32(&mut input, &pubkey.bytes);
    push_u64_le(&mut input, account.lamports);
    push_bytes32(&mut input, &account.owner.bytes);
    input.push(if account.executable { 1u8 } else { 0u8 });
    push_all(&mut input, account.data.as_slice());
    proof {
        assert(input@ =~= account_preimage(*pubkey, account@));
    }
    sha256(input.as_slice())
}

/// The parent of two Merkle nodes: SHA-256 of the left bytes followed by the right bytes.
pub open spec fn combine_spec(left: Seq<u8>, right: Seq<u8>) -> Seq<u8> {
    sha256_spec(left + right)
}

/// Combines two hashes into their parent hash in the Merkle tree.
pub fn combine_hashes(left: &Hash32, right: &Hash32) -> (r: Hash32)
    ensures
        r.bytes@ == combine_spec(left.bytes@, right.bytes@),
{
    let mut combined: Vec<u8> = Vec::new();
    push_bytes32(&mut combined, &left.bytes);
    push_bytes32(&mut combined, &right.bytes);
    sha256(combined.as_slice())
}

/// The root reached from `current` at position `index` through the siblings from `k` on:
/// an even index is a left child, an odd one a right child, and the index halves per level.
pub open spec fn merkle_root_from(current: Seq<u8>, siblings: Seq<Hash32>, index: nat, k: int) -> Seq<u8>
    decreases siblings.len() - k,
{
    if k < 0 || k >= siblings.len() {
        current
    } else {
        let next = if index % 2 == 0 {
            combine_spec(current, siblings[k].bytes@)
        } else {
            combine_spec(siblings[k].bytes@, current)
        };
        merkle_root_from(next, siblings, index / 2, k + 1)
    }
}

/// The hash of the node at `level` and position `pos` of the binary tree over `leaves`: the
/// leaf itself at level 0, and above it the parent of the nodes at `2 * pos` and `2 * pos + 1`
/// one level down.
pub open spec fn tree_node(leaves: Seq<Seq<u8>>, level: nat, pos: nat) -> Seq<u8>
    decreases level,
{
    if level == 0 {
        leaves[pos as int]
    } else {
        combine_spec(
            tree_node(leaves, (level - 1) as nat, 2 * pos),
            tree_node(leaves, (level - 1) as nat, 2 * pos + 1),
        )
    }
}

/// The position of the other child of the parent of the node at `pos`.
pub open spec fn sibling_pos(pos: nat) -> nat {
    if pos % 2 == 0 {
        pos + 1
    } else {
        (pos - 1) as nat
    }
}

/// Whether `siblings` is the path of leaf `index` in the tree of `depth` levels over `leaves`:
/// at each level `k`, the sibling of the node above the leaf, which sits at `index / 2^k`.
pub open spec fn is_leaf_path(leaves: Seq<Seq<u8>>, depth: nat, index: nat, siblings: Seq<Hash32>) -> bool {
    &&& siblings.len() == depth
    &&& forall|k: int|
        0 <= k < depth ==> (#[trigger] siblings[k]).bytes@ == tree_node(
            leaves,
            k as nat,
            sibling_pos(index / pow2(k as nat)),
        )
}

/// Past the last sibling the path has reached the root.
proof fn lemma_path_at_root(c: Seq<u8>, s: Seq<Hash32>, i: nat, k: int)
    requires
        k >= s.len(),
    ensures
        merkle_root_from(c, s, i, k) == c,
{
}

/// From the node above leaf `index` at level `k`, the path climbs to the root.
proof fn lemma_path_reaches_root(leaves: Seq<Seq<u8>>, depth: nat, index: nat, siblings: Seq<Hash32>, k: nat)
    requires
        k <= depth,
        is_leaf_path(leaves, depth, index, siblings),
    ensures
        merkle_root_from(tree_node(leaves, k, index / pow2(k)), siblings, index / pow2(k), k as int)
            == tree_node(leaves, depth, index / pow2(depth)),
    decreases depth - k,
{
    if k < depth {
        let p = index / pow2(k);
        lemma_pow2_pos(k);
        lemma_pow2_unfold(k + 1);
        lemma_div_denominator(index as int, pow2(k) as int, 2);
        assert(pow2(k) * 2 == pow2(k + 1));
        assert(p / 2 == index / pow2(k + 1));
        let s = siblings[k as int];
        assert(s.bytes@ == tree_node(leaves, k, sibling_pos(p)));
        let next = if p % 2 == 0 {
            combine_spec(tree_node(leaves, k, p), s.bytes@)
        } else {
            combine_spec(s.bytes@, tree_node(leaves, k, p))
        };
        if p % 2 == 0 {
            assert(2 * (p / 2) == p);
        } else {
            assert(2 * (p / 2) + 1 == p);
        }
        assert(next == tree_node(leaves, k + 1, p / 2));
        assert(merkle_root_from(tree_node(leaves, k, p), siblings, p, k as int) == merkle_root_from(
            next,
            siblings,
            p / 2,
            k + 1 as int,
        ));
        lemma_path_reaches_root(leaves, depth, index, siblings, k + 1);
        let q: nat = index / pow2(k + 1);
        assert(q == p / 2);
        assert(merkle_root_from(tree_node(leaves, k + 1, q), siblings, q, (k + 1) as int) == tree_node(
            leaves,
            depth,
            index / pow2(depth),
        ));
    } else {
        lemma_path_at_root(tree_node(leaves, k, index / pow2(k)), siblings, index / pow2(k), k as int);
    }
}

/// Every leaf of a tree is provable: a proof that carries the hash of leaf `index` (below
/// `2^depth`), the path of that leaf and the root of the tree accepts the leaf's hash, with
/// the bits of `index` choosing left or right from the bottom level up; and a proof accepts
/// no hash but its own leaf's.
pub proof fn law_tree_leaves_are_provable(p: MerkleProof, leaves: Seq<Seq<u8>>, depth: nat)
    requires
        leaves.len() == pow2(depth),
        p.leaf_index < pow2(depth),
        p.leaf_hash.bytes@ == leaves[p.leaf_index as int],
        is_leaf_path(leaves, depth, p.leaf_index as nat, p.proof_hashes@),
        p.root_hash.bytes@ == tree_node(leaves, depth, 0),
    ensures
        proof_accepts(p, p.leaf_hash),
        forall|h: Hash32| #[trigger] proof_accepts(p, h) ==> h == p.leaf_hash,
{
    lemma2_to64();
    lemma_path_reaches_root(leaves, depth, p.leaf_index as nat, p.proof_hashes@, 0);
    lemma_basic_div(p.leaf_index as int, pow2(depth) as int);
    assert(p.leaf_index as nat / pow2(0) == p.leaf_index);
}

/// A Merkle proof that an account's hash was a leaf of the accounts tree at a slot.
#[derive(Debug)]
pub struct MerkleProof {
    /// The leaf: the hash of the account data.
    pub leaf_hash: Hash32,
    /// Sibling hashes from the leaf up to the root.
    pub proof_hashes: Vec<Hash32>,
    /// The root the path must reach.
    pub root_hash: Hash32,
    /// The slot at which the proof holds.
    pub proof_slot: u64,
    /// The position of the leaf (its bits pick left or right at each level).
    pub leaf_index: u64,
}

/// Whether a proof accepts `data_hash`: it is the proof's leaf and the path from it reaches
/// the root.
pub open spec fn proof_accepts(p: MerkleProof, data_hash: Hash32) -> bool {
    &&& data_hash == p.leaf_hash
    &&& merkle_root_from(p.leaf_hash.bytes@, p.proof_hashes@, p.leaf_index as nat, 0) == p.root_hash.bytes@
}

impl MerkleProof {
    /// Checks the proof against the hash of the account data.
    pub fn verify(&self, account_data_hash: &Hash32) -> (r: bool)
        ensures
            r == proof_accepts(*self, *account_data_hash),
    {
        if !(*account_data_hash == self.leaf_hash) {
            return false;
        }
        let mut current = self.leaf_hash;
        let mut index = self.leaf_index;
        let mut k: usize = 0;
        while k < self.proof_hashes.len()
            invariant
                0 <= k <= self.proof_hashes@.len(),
                merkle_root_from(self.leaf_hash.bytes@, self.proof_hashes@, self.leaf_index as nat, 0)
                    == merkle_root_from(current.bytes@, self.proof_hashes@, index as nat, k as int),
            decreases self.proof_hashes@.len() - k,
        {
            let sibling = self.proof_hashes[k];
            current = if index % 2 == 0 {
                combine_hashes(&current, &sibling)
            } else {
                combine_hashes(&sibling, &current)
            };
            index = index / 2;
            k = k + 1;
        }
        let r = current == self.root_hash;
        proof {
            if !r {
                if current.bytes@ == self.root_hash.bytes@ {
                    crate::primitives::lemma_hash_ext(current, self.root_hash);
                }
            }
        }
        r
    }

    /// A copy of the proof.
    pub fn duplicate(&self) -> (r: MerkleProof)
        ensures
            r.leaf_hash == self.leaf_hash,
            r.proof_hashes@ == self.proof_hashes@,
            r.root_hash == self.root_hash,
            r.proof_slot == self.proof_slot,
            r.leaf_index == self.leaf_index,
    {
        let mut hashes: Vec<Hash32> = Vec::new();
        let mut i: usize = 0;
        while i < self.proof_hashes.len()
            invariant
                0 <= i <= self.proof_hashes@.len(),
                hashes@ == self.proof_hashes@.take(i as int),
            decreases self.proof_hashes@.len() - i,
        {
            hashes.push(self.proof_hashes[i]);
            proof {
                assert(self.proof_hashes@.take(i + 1) =~= self.proof_hashes@.take(i as int).push(self.proof_hashes@[i as int]));
            }
            i = i + 1;
        }
        proof {
            assert(self.proof_hashes@.take(self.proof_hashes@.len() as int) =~= self.proof_hashes@);
        }
        MerkleProof {
            leaf_hash: self.leaf_hash,
            proof_hashes: hashes,
            root_hash: self.root_hash,
            proof_slot: self.proof_slot,
            leaf_index: self.leaf_index,
        }
    }
}

impl Clone for MerkleProof {
    fn clone(&self) -> (r: Self)
        ensures
            r.leaf_hash == self.leaf_hash,
            r.proof_hashes@ == self.proof_hashes@,
            r.root_hash == self.root_hash,
            r.proof_slot == self.proof_slot,
            r.leaf_index == self.leaf_index,
    {
        self.duplicate()
    }
}

} // verus!

//! Archived accounts: the record kept for an account moved to cold storage, the index of
//! archived accounts, and revival.

use vstd::prelude::*;
use crate::arith::sat_add;
use crate::primitives::{Hash32, Pubkey, sha256_spec};
use crate::accounts::account::{AccountData, AccountView};
use crate::accounts::paths::{cold_path_spec, cold_storage_path_for_account};
use crate::decimal::{decimal, decimal_spec};
use crate::accounts::rent::{
    StateRentConfig, MerkleProof, proof_accepts, account_preimage, compute_account_hash, rent_spec,
    MIN_REVIVAL_RENT_YEARS,
};
use crate::accounts::cold_storage::{
    ColdStorageError, encode_spec, decode_spec, serialize_account_for_cold_storage,
    deserialize_account_from_cold_storage, law_cold_storage_roundtrip,
};

verus! {

/// The record of an account moved to cold storage: everything needed to check and revive it.
#[derive(Debug)]
pub struct ArchivedAccount {
    /// The account's key.
    pub pubkey: Pubkey,
    /// The slot of archival.
    pub archive_slot: u64,
    /// The epoch of archival.
    pub archive_epoch: u64,
    /// The integrity hash of the account when archived.
    pub account_hash: Hash32,
    /// The balance when archived.
    pub lamports_at_archive: u64,
    /// The length of the account data when archived.
    pub data_len: usize,
    /// The owner program.
    pub owner: Pubkey,
    /// Whether the account held a program.
    pub executable: bool,
    /// Unix seconds of archival.
    pub archive_timestamp: u64,
    /// The cold-storage file holding the account.
    pub storage_path: String,
    /// A Merkle proof of the account at archival, once the accounts hash supplies one.
    pub merkle_proof: Option<MerkleProof>,
}

/// Why an archived account could not be revived.
#[derive(Debug)]
pub enum RevivalError {
    /// Revival is disabled by the configuration.
    RevivalDisabled,
    /// The deposit does not cover the minimum revival rent.
    InsufficientRentDeposit { required: u64, provided: u64 },
    /// Cold storage could not be read or decoded.
    StorageError(String),
    /// The stored account does not hash to the archived hash.
    IntegrityCheckFailed { expected: Hash32, computed: Hash32 },
    /// The archived Merkle proof rejects the stored account.
    MerkleProofFailed,
}

/// The record `archive_account` makes of `account`, stored at `storage_path` at the given
/// slot, epoch and time.
pub open spec fn is_archive_record(
    r: ArchivedAccount,
    pubkey: Pubkey,
    account: AccountView,
    current_slot: u64,
    current_epoch: u64,
    storage_path: Seq<char>,
    archive_timestamp: u64,
) -> bool {
    &&& r.pubkey == pubkey
    &&& r.archive_slot == current_slot
    &&& r.archive_epoch == current_epoch
    &&& r.account_hash.bytes@ == sha256_spec(account_preimage(pubkey, account))
    &&& r.lamports_at_archive == account.lamports
    &&& r.data_len == account.data.len()
    &&& r.owner == account.owner
    &&& r.executable == account.executable
    &&& r.archive_timestamp == archive_timestamp
    &&& r.storage_path@ == storage_path
    &&& r.merkle_proof is None
}

/// Archives an account: its record, naming its cold-storage file under the configured
/// directory (see [`cold_storage_path_for_account`]), and the bytes to write there.
///
/// The caller writes the bytes to the file and supplies the time of archival.
pub fn archive_account(
    pubkey: &Pubkey,
    account: &AccountData,
    current_slot: u64,
    current_epoch: u64,
    config: &StateRentConfig,
    archive_timestamp: u64,
) -> (r: (ArchivedAccount, Vec<u8>))
    ensures
        is_archive_record(
            r.0,
            *pubkey,
            account@,
            current_slot,
            current_epoch,
            cold_path_spec(config.cold_storage_path@, *pubkey),
            archive_timestamp,
        ),
        r.1@ == encode_spec(account@),
{
    let storage_path = cold_storage_path_for_account(pubkey, config.cold_storage_path.as_str());
    let account_hash = compute_account_hash(pubkey, account);
    let serialized = serialize_account_for_cold_storage(account);
    let record = ArchivedAccount {
        pubkey: *pubkey,
        archive_slot: current_slot,
        archive_epoch: current_epoch,
        account_hash,
        lamports_at_archive: account.lamports,
        data_len: account.data.len(),
        owner: account.owner,
        executable: account.executable,
        archive_timestamp,
        storage_path,
        merkle_proof: None,
    };
    (record, serialized)
}

/// The account that stored bytes give back for an archived record: the bytes decode, the
/// decoded account hashes to the archived hash, and the Merkle proof, where there is one,
/// accepts that hash.
pub open spec fn restored_account(archived: ArchivedAccount, stored: Seq<u8>) -> Option<AccountView> {
    match decode_spec(stored) {
        Err(_) => None,
        Ok(a) => {
            let h = sha256_spec(account_preimage(archived.pubkey, a));
            if h != archived.account_hash.bytes@ {
                None
            } else if archived.merkle_proof matches Some(p) && !proof_accepts(p, archived.account_hash) {
                None
            } else {
                Some(a)
            }
        },
    }
}

/// The deposit that revives an archived record.
pub open spec fn required_deposit(archived: ArchivedAccount, config: StateRentConfig) -> int {
    rent_spec(config.lamports_per_byte_year, archived.data_len, MIN_REVIVAL_RENT_YEARS)
}

/// The message of a storage error for stored bytes that do not decode.
pub open spec fn decode_failure_text(e: ColdStorageError) -> Seq<char> {
    match e {
        ColdStorageError::TooShort => "Failed to deserialize account: Cold storage data too short"@,
        ColdStorageError::Truncated { expected, got } => "Failed to deserialize account: Cold storage data truncated: expected "@
            + decimal_spec(expected as nat) + " data bytes, got "@ + decimal_spec(got as nat),
    }
}

/// The message of a storage error for stored bytes that do not decode.
fn decode_failure_message(e: ColdStorageError) -> (r: String)
    ensures
        r@ == decode_failure_text(e),
{
    match e {
        ColdStorageError::TooShort => "Failed to deserialize account: Cold storage data too short".to_owned(),
        ColdStorageError::Truncated { expected, got } => {
            let mut s = String::new();
            s.append("Failed to deserialize account: Cold storage data truncated: expected ");
            s.append(decimal(expected).as_str());
            s.append(" data bytes, got ");
            s.append(decimal(got as u64).as_str());
            proof {
                assert(s@ =~= decode_failure_text(e));
            }
            s
        },
    }
}

/// Revives an archived account from the contents of its cold-storage file.
///
/// `stored` is what reading `archived.storage_path` gave: the bytes, or the message of the
/// failed read. The checks run in order: revival allowed, deposit sufficient, file read, bytes
/// decoded, integrity hash matched, Merkle proof (if any) accepted.
pub fn revive_account(
    archived: &ArchivedAccount,
    rent_deposit: u64,
    config: &StateRentConfig,
    stored: Result<Vec<u8>, String>,
) -> (r: Result<AccountData, RevivalError>)
    ensures
        !config.allow_revival ==> r matches Err(RevivalError::RevivalDisabled),
        config.allow_revival && rent_deposit < required_deposit(*archived, *config) ==> (r matches Err(
            RevivalError::InsufficientRentDeposit { required, provided },
        ) && required == required_deposit(*archived, *config) && provided == rent_deposit),
        config.allow_revival && rent_deposit >= required_deposit(*archived, *config) ==> match stored {
            Err(m) => (r matches Err(RevivalError::StorageError(m2)) && m2 == m),
            Ok(bytes) => match decode_spec(bytes@) {
                Err(e) => (r matches Err(RevivalError::StorageError(m)) && m@ == decode_failure_text(e)),
                Ok(a) => {
                    let h = sha256_spec(account_preimage(archived.pubkey, a));
                    if h != archived.account_hash.bytes@ {
                        (r matches Err(RevivalError::IntegrityCheckFailed { expected, computed })
                            && expected == archived.account_hash && computed.bytes@ == h)
                    } else if restored_account(*archived, bytes@) is None {
                        r matches Err(RevivalError::MerkleProofFailed)
                    } else {
                        (r matches Ok(acct) && acct@ == a)
                    }
                },
            },
        },
{
    if !config.allow_revival {
        return Err(RevivalError::RevivalDisabled);
    }
    let min_deposit = config.revival_deposit(archived.data_len);
    if rent_deposit < min_deposit {
        return Err(RevivalError::InsufficientRentDeposit { required: min_deposit, provided: rent_deposit });
    }
    let bytes = match stored {
        Err(m) => {
            return Err(RevivalError::StorageError(m));
        },
        Ok(b) => b,
    };
    let account = match deserialize_account_from_cold_storage(bytes.as_slice()) {
        Err(e) => {
            return Err(RevivalError::StorageError(decode_failure_message(e)));
        },
        Ok(a) => a,
    };
    let computed = compute_account_hash(&archived.pubkey, &account);
    if !(computed == archived.account_hash) {
        proof {
            if computed.bytes@ == archived.account_hash.bytes@ {
                crate::primitives::lemma_hash_ext(computed, archived.account_hash);
            }
        }
        return Err(RevivalError::IntegrityCheckFailed { expected: archived.account_hash, computed });
    }
    match &archived.merkle_proof {
        Some(p) => {
            if !p.verify(&computed) {
                return Err(RevivalError::MerkleProofFailed);
            }
        },
        None => {},
    }
    Ok(account)
}

/// What archival stores gives the account back on revival: the stored bytes decode to the
/// account, its hash matches the record, and a fresh record carries no proof to fail.
pub proof fn law_archive_then_restore(
    record: ArchivedAccount,
    pubkey: Pubkey,
    account: AccountView,
    current_slot: u64,
    current_epoch: u64,
    storage_path: Seq<char>,
    archive_timestamp: u64,
)
    requires
        account.data.len() <= u64::MAX,
        is_archive_record(record, pubkey, account, current_slot, current_epoch, storage_path, archive_timestamp),
    ensures
        restored_account(record, encode_spec(account)) == Some(account),
{
    law_cold_storage_roundtrip(account);
}

/// The contents of an archive index: each archived key with its record.
pub open spec fn records_map(s: Seq<ArchivedAccount>) -> Map<Pubkey, ArchivedAccount>
    decreases s.len(),
{
    if s.len() == 0 {
        Map::empty()
    } else {
        records_map(s.drop_last()).insert(s.last().pubkey, s.last())
    }
}

/// No key occurs twice.
pub open spec fn keys_distinct(s: Seq<ArchivedAccount>) -> bool {
    forall|i: int, j: int| 0 <= i < j < s.len() ==> s[i].pubkey != s[j].pubkey
}

proof fn lemma_records_map(s: Seq<ArchivedAccount>)
    requires
        keys_distinct(s),
    ensures
        forall|k: Pubkey| records_map(s).dom().contains(k) <==> exists|i: int| 0 <= i < s.len() && s[i].pubkey == k,
        forall|i: int| 0 <= i < s.len() ==> records_map(s).dom().contains(s[i].pubkey) && #[trigger] records_map(s)[s[i].pubkey] == s[i],
        records_map(s).dom().finite(),
        records_map(s).len() == s.len(),
    decreases s.len(),
{
    if s.len() > 0 {
        let t = s.drop_last();
        lemma_records_map(t);
        assert forall|k: Pubkey| records_map(s).dom().contains(k) <==> exists|i: int| 0 <= i < s.len() && s[i].pubkey == k by {
            if records_map(s).dom().contains(k) && k != s.last().pubkey {
                let i = choose|i: int| 0 <= i < t.len() && t[i].pubkey == k;
                assert(s[i].pubkey == k);
            }
            if exists|i: int| 0 <= i < s.len() && s[i].pubkey == k {
                let i = choose|i: int| 0 <= i < s.len() && s[i].pubkey == k;
                if i < s.len() - 1 {
                    assert(t[i].pubkey == k);
                }
            }
        }
        assert forall|i: int| 0 <= i < s.len() implies records_map(s).dom().contains(s[i].pubkey)
            && #[trigger] records_map(s)[s[i].pubkey] == s[i] by {
            if i < s.len() - 1 {
                assert(t[i] == s[i]);
                assert(s[i].pubkey != s.last().pubkey);
            }
        }
        assert(!records_map(t).dom().contains(s.last().pubkey)) by {
            if records_map(t).dom().contains(s.last().pubkey) {
                let i = choose|i: int| 0 <= i < t.len() && t[i].pubkey == s.last().pubkey;
                assert(s[i].pubkey == s[s.len() - 1].pubkey);
            }
        }
    }
}

/// The index of archived accounts by key, with running totals.
#[derive(Debug)]
pub struct ArchiveIndex {
    /// The records, in the order their keys were first archived; no key occurs twice.
    pub entries: Vec<ArchivedAccount>,
    /// Accounts archived so far (saturating).
    pub total_archived: u64,
    /// Bytes of account data archived so far (saturating).
    pub total_archived_bytes: u64,
    /// Accounts revived so far (saturating).
    pub total_revived: u64,
}

impl ArchiveIndex {
    /// The index's contents: each archived key with its record.
    pub open spec fn view(&self) -> Map<Pubkey, ArchivedAccount> {
        records_map(self.entries@)
    }

    /// The index's invariant: no key is recorded twice.
    pub open spec fn wf(&self) -> bool {
        keys_distinct(self.entries@)
    }

    /// An empty index.
    pub fn new() -> (r: Self)
        ensures
            r.wf(),
            r@ == Map::<Pubkey, ArchivedAccount>::empty(),
            r.total_archived == 0,
            r.total_archived_bytes == 0,
            r.total_revived == 0,
    {
        ArchiveIndex { entries: Vec::new(), total_archived: 0, total_archived_bytes: 0, total_revived: 0 }
    }

    fn find(&self, pubkey: &Pubkey) -> (r: Option<usize>)
        requires
            self.wf(),
        ensures
            match r {
                Some(i) => i < self.entries@.len() && self.entries@[i as int].pubkey == *pubkey,
                None => !self@.dom().contains(*pubkey),
            },
    {
        proof {
            lemma_records_map(self.entries@);
        }
        let mut i: usize = 0;
        while i < self.entries.len()
            invariant
                0 <= i <= self.entries@.len(),
                forall|j: int| 0 <= j < i ==> self.entries@[j].pubkey != *pubkey,
            decreases self.entries@.len() - i,
        {
            if self.entries[i].pubkey == *pubkey {
                return Some(i);
            }
            i = i + 1;
        }
        None
    }

    /// Records an archived account, replacing any record of the same key, and counts it.
    pub fn insert(&mut self, archived: ArchivedAccount)
        requires
            old(self).wf(),
        ensures
            final(self).wf(),
            final(self)@ == old(self)@.insert(archived.pubkey, archived),
            final(self).total_archived == crate::arith::sat_add_spec(old(self).total_archived as int, 1),
            final(self).total_archived_bytes == crate::arith::sat_add_spec(
                old(self).total_archived_bytes as int,
                archived.data_len as int,
            ),
            final(self).total_revived == old(self).total_revived,
    {
        self.total_archived = sat_add(self.total_archived, 1);
        self.total_archived_bytes = sat_add(self.total_archived_bytes, archived.data_len as u64);
        let ghost old_entries = self.entries@;
        let ghost key = archived.pubkey;
        let ghost value = archived;
        proof {
            lemma_records_map(old_entries);
        }
        match self.find(&archived.pubkey) {
            Some(i) => {
                self.entries.set(i, archived);
                proof {
                    let s = self.entries@;
                    assert(s == old_entries.update(i as int, value));
                    assert(keys_distinct(s)) by {
                        assert forall|a: int, b: int| 0 <= a < b < s.len() implies s[a].pubkey != s[b].pubkey by {
                            assert(old_entries[a].pubkey != old_entries[b].pubkey);
                        }
                    }
                    lemma_records_map(s);
                    assert(s[i as int].pubkey == key);
                    assert(records_map(s).dom().contains(key));
                    assert forall|k: Pubkey| #![auto] records_map(s).dom().contains(k) == old(self)@.insert(key, value).dom().contains(k) by {
                        if records_map(s).dom().contains(k) && k != key {
                            let j = choose|j: int| 0 <= j < s.len() && s[j].pubkey == k;
                            if j != i {
                                assert(old_entries[j].pubkey == k);
                            }
                        }
                        if old(self)@.dom().contains(k) && k != key {
                            let j = choose|j: int| 0 <= j < old_entries.len() && old_entries[j].pubkey == k;
                            assert(s[j].pubkey == k);
                        }
                    }
                    assert forall|k: Pubkey| records_map(s).dom().contains(k) implies #[trigger] records_map(s)[k]
                        == old(self)@.insert(key, value)[k] by {
                        let j = choose|j: int| 0 <= j < s.len() && s[j].pubkey == k;
                        assert(records_map(s)[s[j].pubkey] == s[j]);
                        if j != i {
                            assert(old_entries[j] == s[j]);
                            assert(old(self)@[old_entries[j].pubkey] == old_entries[j]);
                        }
                    }
                    assert(records_map(s) =~= old(self)@.insert(key, value));
                }
            },
            None => {
                self.entries.push(archived);
                proof {
                    let s = self.entries@;
                    assert(s.drop_last() =~= old_entries);
                    assert(keys_distinct(s)) by {
                        assert forall|a: int, b: int| 0 <= a < b < s.len() implies s[a].pubkey != s[b].pubkey by {
                            if b == s.len() - 1 {
                                assert(old(self)@.dom().contains(old_entries[a].pubkey));
                            } else {
                                assert(old_entries[a].pubkey != old_entries[b].pubkey);
                            }
                        }
                    }
                }
            },
        }
    }

    /// The record of `pubkey`, if it is archived.
    pub fn get(&self, pubkey: &Pubkey) -> (r: Option<&ArchivedAccount>)
        requires
            self.wf(),
        ensures
            r is Some <==> self@.dom().contains(*pubkey),
            r matches Some(a) ==> *a == self@[*pubkey],
    {
        proof {
            lemma_records_map(self.entries@);
        }
        match self.find(pubkey) {
            Some(i) => Some(&self.entries[i]),
            None => None,
        }
    }

    /// Removes the record of `pubkey` on revival, counting the revival; `None` if it was not
    /// archived.
    pub fn remove(&mut self, pubkey: &Pubkey) -> (r: Option<ArchivedAccount>)
        requires
            old(self).wf(),
        ensures
            final(self).wf(),
            final(self)@ == old(self)@.remove(*pubkey),
            r is Some <==> old(self)@.dom().contains(*pubkey),
            r matches Some(a) ==> a == old(self)@[*pubkey],
            final(self).total_revived == (if r is Some {
                crate::arith::sat_add_spec(old(self).total_revived as int, 1)
            } else {
                old(self).total_revived as int
            }),
            final(self).total_archived == old(self).total_archived,
            final(self).total_archived_bytes == old(self).total_archived_bytes,
    {
        let ghost old_entries = self.entries@;
        proof {
            lemma_records_map(old_entries);
        }
        match self.find(pubkey) {
            Some(i) => {
                let a = self.entries.remove(i);
                self.total_revived = sat_add(self.total_revived, 1);
                proof {
                    let s = self.entries@;
                    assert(s == old_entries.remove(i as int));
                    assert(keys_distinct(s)) by {
                        assert forall|x: int, y: int| 0 <= x < y < s.len() implies s[x].pubkey != s[y].pubkey by {
                            let ox = if x < i { x } else { x + 1 };
                            let oy = if y < i { y } else { y + 1 };
                            assert(s[x] == old_entries[ox]);
                            assert(s[y] == old_entries[oy]);
                        }
                    }
                    lemma_records_map(s);
                    let m = old(self)@.remove(*pubkey);
                    assert forall|k: Pubkey| #![auto] records_map(s).dom().contains(k) == m.dom().contains(k) by {
                        if records_map(s).dom().contains(k) {
                            let j = choose|j: int| 0 <= j < s.len() && s[j].pubkey == k;
                            let oj = if j < i { j } else { j + 1 };
                            assert(old_entries[oj].pubkey == k);
                            assert(oj != i);
                        }
                        if m.dom().contains(k) {
                            let j = choose|j: int| 0 <= j < old_entries.len() && old_entries[j].pubkey == k;
                            assert(j != i);
                            let nj = if j < i { j } else { j - 1 };
                            assert(s[nj].pubkey == k);
                        }
                    }
                    assert forall|k: Pubkey| records_map(s).dom().contains(k) implies #[trigger] records_map(s)[k] == m[k] by {
                        let j = choose|j: int| 0 <= j < s.len() && s[j].pubkey == k;
                        let oj = if j < i { j } else { j + 1 };
                        assert(s[j] == old_entries[oj]);
                        assert(records_map(s)[s[j].pubkey] == s[j]);
                        assert(old(self)@[old_entries[oj].pubkey] == old_entries[oj]);
                    }
                    assert(records_map(s) =~= m);
                }
                Some(a)
            },
            None => {
                proof {
                    assert(old(self)@.remove(*pubkey) =~= old(self)@);
                }
                None
            },
        }
    }

    /// Whether `pubkey` is archived.
    pub fn is_archived(&self, pubkey: &Pubkey) -> (r: bool)
        requires
            self.wf(),
        ensures
            r == self@.dom().contains(*pubkey),
    {
        proof {
            lemma_records_map(self.entries@);
        }
        self.find(pubkey).is_some()
    }

    /// The number of archived accounts.
    pub fn len(&self) -> (r: usize)
        requires
            self.wf(),
        ensures
            r == self@.len(),
    {
        proof {
            lemma_records_map(self.entries@);
        }
        self.entries.len()
    }

    /// Whether no account is archived.
    pub fn is_empty(&self) -> (r: bool)
        requires
            self.wf(),
        ensures
            r == (self@.len() == 0),
    {
        proof {
            lemma_records_map(self.entries@);
        }
        self.entries.len() == 0
    }
}

impl Default for ArchiveIndex {
    /// An empty index.
    fn default() -> (r: Self)
        ensures
            r.wf(),
            r@ == Map::<Pubkey, ArchivedAccount>::empty(),
            r.total_archived == 0,
            r.total_archived_bytes == 0,
            r.total_revived == 0,
    {
        ArchiveIndex::new()
    }
}

/// The Merkle proof of an archived account; `None` if it is not archived or has no proof.
pub fn get_archive_proof(pubkey: &Pubkey, archive_index: &ArchiveIndex) -> (r: Option<MerkleProof>)
    requires
        archive_index.wf(),
    ensures
        r is Some <==> archive_index@.dom().contains(*pubkey) && archive_index@[*pubkey].merkle_proof is Some,
        r matches Some(p) ==> {
            let q = archive_index@[*pubkey].merkle_proof->Some_0;
            &&& p.leaf_hash == q.leaf_hash
            &&& p.proof_hashes@ == q.proof_hashes@
            &&& p.root_hash == q.root_hash
            &&& p.proof_slot == q.proof_slot
            &&& p.leaf_index == q.leaf_index
        },
{
    match archive_index.get(pubkey) {
        Some(a) => match &a.merkle_proof {
            Some(p) => Some(p.duplicate()),
            None => None,
        },
        None => None,
    }
}

} // verus!

//! The account fields the storage tiers read and write.

use vstd::prelude::*;
use crate::primitives::Pubkey;

verus! {

/// An account: balance, owner program, executable flag and data.
#[derive(Debug)]
pub struct AccountData {
    /// Balance in lamports.
    pub lamports: u64,
    /// The owner program.
    pub owner: Pubkey,
    /// Whether the account holds a program.
    pub executable: bool,
    /// The account data.
    pub data: Vec<u8>,
}

/// The value of an account.
#[verifier::ext_equal]
pub struct AccountView {
    pub lamports: u64,
    pub owner: Pubkey,
    pub executable: bool,
    pub data: Seq<u8>,
}

impl AccountData {
    /// The account's value.
    pub open spec fn view(&self) -> AccountView {
        AccountView { lamports: self.lamports, owner: self.owner, executable: self.executable, data: self.data@ }
    }

    /// A copy of the account with the same value.
    pub fn duplicate(&self) -> (r: AccountData)
        ensures
            r@ == self@,
    {
        let data = self.data.clone();
        proof {
            assert(data@ =~= self.data@);
        }
        AccountData { lamports: self.lamports, owner: self.owner, executable: self.executable, data }
    }
}

impl Clone for AccountData {
    fn clone(&self) -> (r: Self)
        ensures
            r@ == self@,
    {
        self.duplicate()
    }
}

} // verus!

//! Accounts of the ledger, as far as the faucet reads them.

use vstd::prelude::*;
use crate::pubkey::Pubkey;

verus! {

/// An account of the ledger, as far as the faucet reads it.
#[derive(Clone, Copy, Debug, PartialEq, Eq)]
pub struct AccountInfo {
    /// The address of the account.
    pub key: Pubkey,
    /// The balance of the account.
    pub lamports: u64,
    /// The reserve that the ledger demands for the account to stay alive.
    pub minimum_balance: u64,
}

/// An account whose holder signed the request; the ledger has checked the
/// signature before the faucet sees the account.
#[derive(Clone, Copy, Debug, PartialEq, Eq)]
pub struct Signer {
    /// The account that signed.
    pub info: AccountInfo,
}

impl AccountInfo {
    /// What the account can spend: its balance less its reserve. Negative
    /// where the balance has fallen under the reserve.
    pub open spec fn spendable(self) -> int {
        self.lamports - self.minimum_balance
    }

    /// The account after `amount` has left it.
    pub open spec fn debited(self, amount: u64) -> AccountInfo
        recommends
            amount <= self.lamports,
    {
        AccountInfo { lamports: (self.lamports - amount) as u64, ..self }
    }

    /// The account after `amount` has reached it.
    pub open spec fn credited(self, amount: u64) -> AccountInfo
        recommends
            self.lamports + amount <= u64::MAX,
    {
        AccountInfo { lamports: (self.lamports + amount) as u64, ..self }
    }
}

impl Signer {
    /// The identity of the signer.
    pub fn key(&self) -> (r: Pubkey)
        ensures
            r == self.info.key,
    {
        self.info.key
    }
}

/// Whether `account` can spend `amount` and keep its reserve.
pub fn has_balance(account: &AccountInfo, amount: u64) -> (r: bool)
    ensures
        r == (account.spendable() >= amount),
{
    account.lamports >= account.minimum_balance && account.lamports - account.minimum_balance
        >= amount
}

} // verus!

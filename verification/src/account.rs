use vstd::prelude::*;
use crate::address::Address;

verus! {

/// What an operation reads of an account that the transaction hands to the program.
#[derive(Clone, Copy, Debug, PartialEq, Eq)]
pub struct Account {
    /// The account's address.
    pub key: Address,
    /// Whether the account's owner signed the transaction.
    pub is_signer: bool,
    /// The account's balance of native currency. An account with none counts as
    /// not existing.
    pub lamports: u64,
}

impl Account {
    pub fn new(key: Address, is_signer: bool, lamports: u64) -> (account: Account)
        ensures
            account == (Account { key, is_signer, lamports }),
    {
        Account { key, is_signer, lamports }
    }

    /// Whether the ledger holds the account: it does where the balance is not zero.
    pub fn is_funded(&self) -> (funded: bool)
        ensures
            funded == (self.lamports != 0),
    {
        self.lamports != 0
    }
}

} // verus!

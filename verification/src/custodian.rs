use crate::bounty::{AccountId, Balance};
use std::collections::HashMap;
use vstd::prelude::*;

verus! {

broadcast use vstd::std_specs::hash::group_hash_axioms;

/// The funds custodian: the balance-holding collaborator the lifecycle engine
/// debits and credits. Every account conceptually exists and an account that
/// was never touched holds zero.
pub struct Ledger {
    accounts: HashMap<AccountId, Balance>,
}

impl Ledger {
    /// The funds currently available to `account`.
    pub closed spec fn balance(self, account: AccountId) -> Balance {
        if self.accounts@.contains_key(account) {
            self.accounts@[account]
        } else {
            0
        }
    }

    /// A ledger on which every account holds zero.
    pub fn new() -> (ledger: Ledger)
        ensures
            forall|a: AccountId| ledger.balance(a) == 0,
    {
        Ledger { accounts: HashMap::new() }
    }

    /// Reads an account's available funds.
    pub fn balance_of(&self, account: AccountId) -> (amount: Balance)
        ensures
            amount == self.balance(account),
    {
        match self.accounts.get(&account) {
            Some(amount) => *amount,
            None => 0,
        }
    }

    /// Whether `account` can cover a debit of `amount`.
    pub fn can_debit(&self, account: AccountId, amount: Balance) -> (ok: bool)
        ensures
            ok == (self.balance(account) >= amount),
    {
        self.balance_of(account) >= amount
    }

    /// Removes `amount` from `account`, which must be able to cover it; no
    /// other account changes.
    pub fn debit(&mut self, account: AccountId, amount: Balance)
        requires
            old(self).balance(account) >= amount,
        ensures
            final(self).balance(account) == old(self).balance(account) - amount,
            forall|a: AccountId| a != account ==> final(self).balance(a) == old(self).balance(a),
    {
        let held: Balance = self.balance_of(account);
        self.accounts.insert(account, held - amount);
    }

    /// Adds `amount` to `account`; no other account changes. The new balance
    /// must still be representable.
    pub fn credit(&mut self, account: AccountId, amount: Balance)
        requires
            old(self).balance(account) + amount <= Balance::MAX,
        ensures
            final(self).balance(account) == old(self).balance(account) + amount,
            forall|a: AccountId| a != account ==> final(self).balance(a) == old(self).balance(a),
    {
        let held: Balance = self.balance_of(account);
        self.accounts.insert(account, held + amount);
    }
}

} // verus!

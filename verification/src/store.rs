//! The three stores that the ledger is made of. None of them validates what
//! it is given: the operations do, before they write.

use crate::types::{AccountId, Balance};
use std::collections::BTreeMap;
use vstd::prelude::*;

verus! {

/// What a store holds under `key`: the entry, or zero where there is none.
pub open spec fn held<K>(entries: Map<K, Balance>, key: K) -> Balance {
    if entries.contains_key(key) {
        entries[key]
    } else {
        0
    }
}

/// Balances by account.
pub struct AccountStore {
    entries: BTreeMap<AccountId, Balance>,
}

impl View for AccountStore {
    type V = Map<AccountId, Balance>;

    closed spec fn view(&self) -> Map<AccountId, Balance> {
        self.entries@
    }
}

impl AccountStore {
    /// A store without entries.
    pub fn new() -> (r: Self)
        ensures
            r@ == Map::<AccountId, Balance>::empty(),
    {
        AccountStore { entries: BTreeMap::new() }
    }

    /// The balance of `account`; zero where it has no entry.
    pub fn get(&self, account: &AccountId) -> (r: Balance)
        ensures
            r == held(self@, *account),
    {
        match self.entries.get(account) {
            Some(balance) => *balance,
            None => 0,
        }
    }

    /// Overwrites the balance of `account`.
    pub fn set(&mut self, account: &AccountId, balance: Balance)
        ensures
            final(self)@ == old(self)@.insert(*account, balance),
    {
        self.entries.insert(*account, balance);
    }
}

/// Allowances by owner and spender.
pub struct AllowanceStore {
    entries: BTreeMap<(AccountId, AccountId), Balance>,
}

impl View for AllowanceStore {
    type V = Map<(AccountId, AccountId), Balance>;

    closed spec fn view(&self) -> Map<(AccountId, AccountId), Balance> {
        self.entries@
    }
}

impl AllowanceStore {
    /// A store without entries.
    pub fn new() -> (r: Self)
        ensures
            r@ == Map::<(AccountId, AccountId), Balance>::empty(),
    {
        AllowanceStore { entries: BTreeMap::new() }
    }

    /// What `spender` may move out of `owner`'s balance; zero where the pair
    /// has no entry.
    pub fn get(&self, owner: &AccountId, spender: &AccountId) -> (r: Balance)
        ensures
            r == held(self@, (*owner, *spender)),
    {
        let key = (*owner, *spender);
        match self.entries.get(&key) {
            Some(allowance) => *allowance,
            None => 0,
        }
    }

    /// Overwrites what `spender` may move out of `owner`'s balance.
    pub fn set(&mut self, owner: &AccountId, spender: &AccountId, allowance: Balance)
        ensures
            final(self)@ == old(self)@.insert((*owner, *spender), allowance),
    {
        self.entries.insert((*owner, *spender), allowance);
    }
}

/// The reserve that has not been issued yet.
pub struct SupplyCounter {
    remaining: Balance,
}

impl View for SupplyCounter {
    type V = Balance;

    closed spec fn view(&self) -> Balance {
        self.remaining
    }
}

impl SupplyCounter {
    /// A counter that stands at `remaining`.
    pub fn new(remaining: Balance) -> (r: Self)
        ensures
            r@ == remaining,
    {
        SupplyCounter { remaining }
    }

    /// What is left to issue.
    pub fn get(&self) -> (r: Balance)
        ensures
            r == self@,
    {
        self.remaining
    }

    /// Overwrites what is left to issue. That the reserve only shrinks is the
    /// caller's rule, not the counter's.
    pub fn set(&mut self, remaining: Balance)
        ensures
            final(self)@ == remaining,
    {
        self.remaining = remaining;
    }
}

} // verus!

//! The ledger in memory and its operations.

use crate::arith::{
    checked_add, checked_sub, is_zero, saturating_add, saturating_sub, saturating_sum,
};
use crate::ledger::{emitted, issue_settled_unseen, settled_unseen, Ledger};
use crate::store::{AccountStore, AllowanceStore, SupplyCounter};
use crate::types::{AccountId, Balance, Error, Event};
use vstd::prelude::*;

verus! {

/// The token's bookkeeping: metadata, the reserve that can still be issued,
/// balances by account and allowances by owner and spender.
pub struct Pallet {
    name: Vec<u8>,
    symbol: Vec<u8>,
    total_supply: SupplyCounter,
    balances: AccountStore,
    allowances: AllowanceStore,
}

impl View for Pallet {
    type V = Ledger;

    closed spec fn view(&self) -> Ledger {
        Ledger {
            name: self.name@,
            symbol: self.symbol@,
            total_supply: self.total_supply@,
            balances: self.balances@,
            allowances: self.allowances@,
        }
    }
}

impl Pallet {
    /// A ledger with the given metadata and reserve, and no entry in either
    /// store.
    pub fn new(name: Vec<u8>, symbol: Vec<u8>, total_supply: Balance) -> (r: Pallet)
        ensures
            r@ == (Ledger {
                name: name@,
                symbol: symbol@,
                total_supply,
                balances: Map::empty(),
                allowances: Map::empty(),
            }),
    {
        Pallet {
            name,
            symbol,
            total_supply: SupplyCounter::new(total_supply),
            balances: AccountStore::new(),
            allowances: AllowanceStore::new(),
        }
    }

    /// Overwrites the allowance of `spender` from `owner`.
    pub(crate) fn set_allowance(&mut self, owner: &AccountId, spender: &AccountId, value: Balance)
        ensures
            final(self)@ == old(self)@.with_allowance(*owner, *spender, value),
    {
        self.allowances.set(owner, spender, value);
    }

    /// Tells what `transfer`, `transfer_from` and `approve` answer to a
    /// request for `value` before any account is known: `Some(Ok(()))` where
    /// the request is granted and changes nothing, `None` where the accounts
    /// are needed.
    pub fn settle_unseen(value: Balance) -> (r: Option<Result<(), Error>>)
        ensures
            r == settled_unseen(value),
    {
        if is_zero(value) {
            Some(Ok(()))
        } else {
            None
        }
    }

    /// Tells what `issue` answers to a request for `value` before the
    /// recipient is known: the refusal of a caller without the right to
    /// issue, `Some(Ok(()))` where the request is granted and changes nothing,
    /// `None` where the recipient is needed.
    pub fn settle_issue_unseen(authorized: bool, value: Balance) -> (r: Option<Result<(), Error>>)
        ensures
            r == issue_settled_unseen(authorized, value),
    {
        if !authorized {
            Some(Err(Error::Unauthorized))
        } else if is_zero(value) {
            Some(Ok(()))
        } else {
            None
        }
    }

    /// Token name, as the bytes stored at genesis.
    pub fn name(&self) -> (r: &Vec<u8>)
        ensures
            r@ == self@.name,
    {
        &self.name
    }

    /// Token symbol, as the bytes stored at genesis.
    pub fn symbol(&self) -> (r: &Vec<u8>)
        ensures
            r@ == self@.symbol,
    {
        &self.symbol
    }

    /// The reserve that has not been issued yet.
    pub fn total_supply(&self) -> (r: Balance)
        ensures
            r == self@.total_supply,
    {
        self.total_supply.get()
    }

    /// The balance of `who`; zero for an account the ledger has never written.
    pub fn balance_of(&self, who: &AccountId) -> (r: Balance)
        ensures
            r == self@.balance_of(*who),
    {
        self.balances.get(who)
    }

    /// What `spender` may still move out of `owner`'s balance.
    pub fn allowance_of(&self, owner: &AccountId, spender: &AccountId) -> (r: Balance)
        ensures
            r == self@.allowance_of(*owner, *spender),
    {
        self.allowances.get(owner, spender)
    }

    /// Moves `value` from `from`, the authenticated caller, to `dest`.
    ///
    /// A zero `value` changes nothing and reports no event. Otherwise the call
    /// is refused with `InsufficientFunds` where the sender holds less than
    /// `value`, and with `BalanceOverflow` where the recipient's balance would
    /// pass the largest balance; a refused call changes nothing. The
    /// recipient is credited once the sender has been debited: an account
    /// that pays itself ends with what it had, and the event is reported all
    /// the same.
    pub fn transfer(&mut self, from: AccountId, dest: AccountId, value: Balance) -> (r: Result<
        Option<Event>,
        Error,
    >)
        ensures
            match r {
                Ok(event) => old(self)@.transfer_error(from, dest, value) is None && event
                    == emitted(value, (Event::Transfer { from, to: dest, amount: value })),
                Err(e) => old(self)@.transfer_error(from, dest, value) == Some(e),
            },
            final(self)@ == old(self)@.after_transfer(from, dest, value),
    {
        if is_zero(value) {
            return Ok(None);
        }
        let sender_funds = self.balance_of(&from);
        if sender_funds < value {
            return Err(Error::InsufficientFunds);
        }
        let remaining = saturating_sub(sender_funds, value);
        let receiver_funds = if dest == from {
            remaining
        } else {
            self.balance_of(&dest)
        };
        let new = match checked_add(receiver_funds, value) {
            Some(sum) => sum,
            None => {
                return Err(Error::BalanceOverflow);
            },
        };
        self.update_balance(&from, remaining);
        self.update_balance(&dest, new);
        Ok(Some(Event::Transfer { from, to: dest, amount: value }))
    }

    /// Moves `value` from `from` to `to` on behalf of `from`, spending the
    /// allowance that `from` gave to `origin`, the authenticated caller.
    ///
    /// A zero `value` changes nothing and reports no event. Otherwise the call
    /// is refused with `NoAllowance` where the allowance is zero, with
    /// `InsufficientAllowance` where it is smaller than `value`, with
    /// `InsufficientFunds` where the owner holds less than `value`, and with
    /// `BalanceOverflow` where the recipient's balance would pass the largest
    /// balance, in this order; a refused call changes nothing.
    pub fn transfer_from(
        &mut self,
        origin: AccountId,
        from: AccountId,
        to: AccountId,
        value: Balance,
    ) -> (r: Result<Option<Event>, Error>)
        ensures
            match r {
                Ok(event) => old(self)@.transfer_from_error(origin, from, to, value) is None
                    && event == emitted(value, (Event::Transfer { from, to, amount: value })),
                Err(e) => old(self)@.transfer_from_error(origin, from, to, value) == Some(e),
            },
            final(self)@ == old(self)@.after_transfer_from(origin, from, to, value),
    {
        if is_zero(value) {
            return Ok(None);
        }
        let allowance = self.allowance_of(&from, &origin);
        if is_zero(allowance) {
            return Err(Error::NoAllowance);
        }
        if allowance < value {
            return Err(Error::InsufficientAllowance);
        }
        let owner_funds = self.balance_of(&from);
        if owner_funds < value {
            return Err(Error::InsufficientFunds);
        }
        let remaining = saturating_sub(owner_funds, value);
        let receiver_funds = if to == from {
            remaining
        } else {
            self.balance_of(&to)
        };
        let new = match checked_add(receiver_funds, value) {
            Some(sum) => sum,
            None => {
                return Err(Error::BalanceOverflow);
            },
        };
        self.update_balance(&from, remaining);
        self.set_allowance(&from, &origin, allowance - value);
        self.update_balance(&to, new);
        Ok(Some(Event::Transfer { from, to, amount: value }))
    }

    /// Lets `who` spend `value` more of the balance of `from`, the
    /// authenticated caller. The allowance grows by `value` and stops at the
    /// largest balance; the event carries `value`, not the new total. A zero
    /// `value` changes nothing and reports no event. The call never fails.
    pub fn approve(&mut self, from: AccountId, who: AccountId, value: Balance) -> (r: Result<
        Option<Event>,
        Error,
    >)
        ensures
            r == Ok::<Option<Event>, Error>(
                emitted(value, (Event::Approval { from, to: who, amount: value })),
            ),
            final(self)@ == old(self)@.after_approve(from, who, value),
    {
        if is_zero(value) {
            return Ok(None);
        }
        self.update_approve(&from, &who, value);
        Ok(Some(Event::Approval { from, to: who, amount: value }))
    }

    /// Takes `value` out of the reserve and credits it to `to`. `authorized`
    /// is the dispatcher's verdict on the caller's right to issue.
    ///
    /// The call is refused with `Unauthorized` where `authorized` is false,
    /// whatever the amount. A zero `value` then changes nothing and reports no
    /// event. Otherwise the call is refused with `SupplyExhausted` where the
    /// reserve holds less than `value`, and with `BalanceOverflow` where the
    /// recipient's balance would pass the largest balance; a refused call
    /// changes nothing.
    pub fn issue(&mut self, authorized: bool, to: AccountId, value: Balance) -> (r: Result<
        Option<Event>,
        Error,
    >)
        ensures
            match r {
                Ok(event) => old(self)@.issue_error(authorized, to, value) is None && event
                    == emitted(value, (Event::Issuance { to, amount: value })),
                Err(e) => old(self)@.issue_error(authorized, to, value) == Some(e),
            },
            final(self)@ == old(self)@.after_issue(authorized, to, value),
    {
        if !authorized {
            return Err(Error::Unauthorized);
        }
        if is_zero(value) {
            return Ok(None);
        }
        let remaining = match checked_sub(self.total_supply.get(), value) {
            Some(rest) => rest,
            None => {
                return Err(Error::SupplyExhausted);
            },
        };
        let new_balance = match checked_add(self.balance_of(&to), value) {
            Some(sum) => sum,
            None => {
                return Err(Error::BalanceOverflow);
            },
        };
        self.update_balance(&to, new_balance);
        self.total_supply.set(remaining);
        Ok(Some(Event::Issuance { to, amount: value }))
    }

    /// Overwrites the balance of `account`.
    pub fn update_balance(&mut self, account: &AccountId, value: Balance)
        ensures
            final(self)@ == old(self)@.with_balance(*account, value),
    {
        self.balances.set(account, value);
    }

    /// Raises the allowance of `who` from `from` by `value`, stopping at the
    /// largest balance.
    pub fn update_approve(&mut self, from: &AccountId, who: &AccountId, value: Balance)
        ensures
            final(self)@ == old(self)@.with_allowance(
                *from,
                *who,
                saturating_sum(old(self)@.allowance_of(*from, *who), value),
            ),
    {
        let allowance = saturating_add(self.allowance_of(from, who), value);
        self.set_allowance(from, who, allowance);
    }
}

} // verus!

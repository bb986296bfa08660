//! The ledger as a mathematical value, and what each operation makes of it.

use crate::arith::saturating_sum;
use crate::store::held;
use crate::types::{AccountId, Balance, Error, Event};
use vstd::prelude::*;

verus! {

/// What the ledger holds: the token's name and symbol, the reserve that has
/// not been issued yet, and the entries of the two stores. An account, or a
/// pair of owner and spender, without an entry stands for zero.
#[verifier::ext_equal]
pub struct Ledger {
    pub name: Seq<u8>,
    pub symbol: Seq<u8>,
    pub total_supply: Balance,
    pub balances: Map<AccountId, Balance>,
    pub allowances: Map<(AccountId, AccountId), Balance>,
}

impl Ledger {
    /// The balance of `who`; zero where the account has no entry.
    pub open spec fn balance_of(self, who: AccountId) -> Balance {
        held(self.balances, who)
    }

    /// What `spender` may still move out of `owner`'s balance; zero where the
    /// pair has no entry.
    pub open spec fn allowance_of(self, owner: AccountId, spender: AccountId) -> Balance {
        held(self.allowances, (owner, spender))
    }

    /// The ledger with the balance of `who` overwritten.
    pub open spec fn with_balance(self, who: AccountId, value: Balance) -> Ledger {
        Ledger { balances: self.balances.insert(who, value), ..self }
    }

    /// The ledger with the allowance of `spender` from `owner` overwritten.
    pub open spec fn with_allowance(
        self,
        owner: AccountId,
        spender: AccountId,
        value: Balance,
    ) -> Ledger {
        Ledger { allowances: self.allowances.insert((owner, spender), value), ..self }
    }

    /// The ledger with the reserve overwritten.
    pub open spec fn with_total_supply(self, value: Balance) -> Ledger {
        Ledger { total_supply: value, ..self }
    }

    /// Why `transfer` refuses, if it does: the sender's funds are looked at
    /// first, then the recipient's balance as it stands once the sender has
    /// been debited. An account that pays itself cannot overflow.
    pub open spec fn transfer_error(
        self,
        from: AccountId,
        dest: AccountId,
        value: Balance,
    ) -> Option<Error> {
        if value == 0 {
            None
        } else if self.balance_of(from) < value {
            Some(Error::InsufficientFunds)
        } else if from != dest && self.balance_of(dest) + value > Balance::MAX {
            Some(Error::BalanceOverflow)
        } else {
            None
        }
    }

    /// The ledger after `transfer`: the sender debited, then the recipient
    /// credited. An account that pays itself ends with what it had.
    pub open spec fn after_transfer(
        self,
        from: AccountId,
        dest: AccountId,
        value: Balance,
    ) -> Ledger {
        if value == 0 || self.transfer_error(from, dest, value) is Some {
            self
        } else {
            let debited = self.with_balance(from, (self.balance_of(from) - value) as Balance);
            debited.with_balance(dest, (debited.balance_of(dest) + value) as Balance)
        }
    }

    /// Why `transfer_from` refuses, if it does: the allowance is looked at
    /// first, then the owner's funds, then the recipient's balance as it
    /// stands once the owner has been debited.
    pub open spec fn transfer_from_error(
        self,
        origin: AccountId,
        from: AccountId,
        to: AccountId,
        value: Balance,
    ) -> Option<Error> {
        if value == 0 {
            None
        } else if self.allowance_of(from, origin) == 0 {
            Some(Error::NoAllowance)
        } else if self.allowance_of(from, origin) < value {
            Some(Error::InsufficientAllowance)
        } else if self.balance_of(from) < value {
            Some(Error::InsufficientFunds)
        } else if from != to && self.balance_of(to) + value > Balance::MAX {
            Some(Error::BalanceOverflow)
        } else {
            None
        }
    }

    /// The ledger after `transfer_from`: the owner debited, the allowance
    /// lowered, the recipient credited, in this order.
    pub open spec fn after_transfer_from(
        self,
        origin: AccountId,
        from: AccountId,
        to: AccountId,
        value: Balance,
    ) -> Ledger {
        if value == 0 || self.transfer_from_error(origin, from, to, value) is Some {
            self
        } else {
            let debited = self.with_balance(from, (self.balance_of(from) - value) as Balance);
            let spent = debited.with_allowance(
                from,
                origin,
                (self.allowance_of(from, origin) - value) as Balance,
            );
            spent.with_balance(to, (spent.balance_of(to) + value) as Balance)
        }
    }

    /// The ledger after `approve`: the allowance grows by `value` and stops at
    /// the largest balance.
    pub open spec fn after_approve(self, from: AccountId, who: AccountId, value: Balance) -> Ledger {
        if value == 0 {
            self
        } else {
            self.with_allowance(from, who, saturating_sum(self.allowance_of(from, who), value))
        }
    }

    /// Why `issue` refuses, if it does.
    pub open spec fn issue_error(self, authorized: bool, to: AccountId, value: Balance) -> Option<
        Error,
    > {
        if !authorized {
            Some(Error::Unauthorized)
        } else if value == 0 {
            None
        } else if self.total_supply < value {
            Some(Error::SupplyExhausted)
        } else if self.balance_of(to) + value > Balance::MAX {
            Some(Error::BalanceOverflow)
        } else {
            None
        }
    }

    /// The ledger after `issue`: what the recipient gains, the reserve loses.
    pub open spec fn after_issue(self, authorized: bool, to: AccountId, value: Balance) -> Ledger {
        if value == 0 || self.issue_error(authorized, to, value) is Some {
            self
        } else {
            self.with_balance(to, (self.balance_of(to) + value) as Balance).with_total_supply(
                (self.total_supply - value) as Balance,
            )
        }
    }
}

/// What `transfer`, `transfer_from` and `approve` answer before any account
/// is known: a request for nothing is granted as it stands; any other needs
/// its accounts.
pub open spec fn settled_unseen(value: Balance) -> Option<Result<(), Error>> {
    if value == 0 {
        Some(Ok(()))
    } else {
        None
    }
}

/// What `issue` answers before the recipient is known: a caller without the
/// right to issue is refused, a request for nothing is granted as it stands;
/// any other needs its recipient.
pub open spec fn issue_settled_unseen(authorized: bool, value: Balance) -> Option<
    Result<(), Error>,
> {
    if !authorized {
        Some(Err(Error::Unauthorized))
    } else if value == 0 {
        Some(Ok(()))
    } else {
        None
    }
}

/// The event of an operation that moved, approved or issued `amount`: none
/// where the amount is zero.
pub open spec fn emitted(amount: Balance, event: Event) -> Option<Event> {
    if amount == 0 {
        None
    } else {
        Some(event)
    }
}

} // verus!

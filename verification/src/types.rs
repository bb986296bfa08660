//! Identifiers, amounts, events and errors of the ledger.

use vstd::prelude::*;

verus! {

/// Identifier of an account. The dispatcher authenticates callers and resolves
/// account references before the ledger sees them.
pub type AccountId = u64;

/// An amount of tokens.
pub type Balance = u128;

/// Limits that are fixed when the ledger is set up.
#[derive(Clone, Copy, Debug, PartialEq, Eq, Structural)]
pub struct Config {
    /// Max possible length of a token name, in bytes.
    pub max_name_length: u32,
    /// Max possible length of a token symbol, in bytes.
    pub max_symbol_length: u32,
}

/// What a successful operation reports to the event sink.
#[derive(Clone, Copy, Debug, PartialEq, Eq, Structural)]
pub enum Event {
    /// `amount` moved from `from` to `to`.
    Transfer { from: AccountId, to: AccountId, amount: Balance },
    /// `from` raised what `to` may spend on its behalf by `amount`.
    Approval { from: AccountId, to: AccountId, amount: Balance },
    /// `amount` left the reserve and was credited to `to`.
    Issuance { to: AccountId, amount: Balance },
}

/// Why an operation was refused.
#[derive(Clone, Copy, Debug, PartialEq, Eq, Structural)]
pub enum Error {
    /// The account to debit holds less than the requested amount.
    InsufficientFunds,
    /// The spender's allowance is positive but smaller than the requested amount.
    InsufficientAllowance,
    /// The spender has no allowance from the owner.
    NoAllowance,
    /// Crediting the recipient would exceed the largest balance.
    BalanceOverflow,
    /// The reserve holds less than the amount to issue.
    SupplyExhausted,
    /// The caller may not issue tokens.
    Unauthorized,
}

} // verus!

//! Checked and saturating arithmetic on balances, as the runtime's numeric
//! traits provide it.

use crate::types::Balance;
use sp_runtime::traits::{Bounded, CheckedAdd, CheckedSub, Zero};
use sp_runtime::Saturating;
use vstd::prelude::*;

verus! {

/// The sum of two balances, where it is a balance.
pub open spec fn checked_sum(a: Balance, b: Balance) -> Option<Balance> {
    if a + b <= Balance::MAX {
        Some((a + b) as Balance)
    } else {
        None
    }
}

/// The difference of two balances, where it is a balance.
pub open spec fn checked_difference(a: Balance, b: Balance) -> Option<Balance> {
    if a >= b {
        Some((a - b) as Balance)
    } else {
        None
    }
}

/// The sum of two balances, held at the largest balance.
pub open spec fn saturating_sum(a: Balance, b: Balance) -> Balance {
    if a + b <= Balance::MAX {
        (a + b) as Balance
    } else {
        Balance::MAX
    }
}

/// The difference of two balances, held at zero.
pub open spec fn saturating_difference(a: Balance, b: Balance) -> Balance {
    if a >= b {
        (a - b) as Balance
    } else {
        0
    }
}

/// `sp_runtime::traits::CheckedAdd::checked_add` on `u128`: the sum, or `None`
/// where it does not fit.
#[verifier::external_body]
pub(crate) fn checked_add(a: Balance, b: Balance) -> (r: Option<Balance>)
    ensures
        r == checked_sum(a, b),
{
    CheckedAdd::checked_add(&a, &b)
}

/// `sp_runtime::traits::CheckedSub::checked_sub` on `u128`: the difference, or
/// `None` where it would be negative.
#[verifier::external_body]
pub(crate) fn checked_sub(a: Balance, b: Balance) -> (r: Option<Balance>)
    ensures
        r == checked_difference(a, b),
{
    CheckedSub::checked_sub(&a, &b)
}

/// `sp_runtime::Saturating::saturating_add` on `u128`: the sum, or `u128::MAX`
/// where it does not fit.
#[verifier::external_body]
pub(crate) fn saturating_add(a: Balance, b: Balance) -> (r: Balance)
    ensures
        r == saturating_sum(a, b),
{
    Saturating::saturating_add(a, b)
}

/// `sp_runtime::Saturating::saturating_sub` on `u128`: the difference, or zero
/// where it would be negative.
#[verifier::external_body]
pub(crate) fn saturating_sub(a: Balance, b: Balance) -> (r: Balance)
    ensures
        r == saturating_difference(a, b),
{
    Saturating::saturating_sub(a, b)
}

/// `sp_runtime::traits::Zero::is_zero` on `u128`: whether the value is zero.
#[verifier::external_body]
pub(crate) fn is_zero(value: Balance) -> (r: bool)
    ensures
        r == (value == 0),
{
    Zero::is_zero(&value)
}

/// `sp_runtime::traits::Bounded::max_value` for `u128`: `u128::MAX`.
#[verifier::external_body]
pub(crate) fn max_value() -> (r: Balance)
    ensures
        r == Balance::MAX,
{
    Bounded::max_value()
}

} // verus!

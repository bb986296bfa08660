//! What holds of the ledger whatever is asked of it.

use crate::arith::saturating_sum;
use crate::ledger::{emitted, issue_settled_unseen, settled_unseen, Ledger};
use crate::store::held;
use crate::types::{AccountId, Balance, Error, Event};
use vstd::prelude::*;

verus! {

/// One request to the ledger.
pub enum Call {
    Transfer { from: AccountId, dest: AccountId, value: Balance },
    TransferFrom { origin: AccountId, from: AccountId, to: AccountId, value: Balance },
    Approve { from: AccountId, who: AccountId, value: Balance },
    Issue { authorized: bool, to: AccountId, value: Balance },
}

impl Call {
    /// The amount that the request names.
    pub open spec fn value(self) -> Balance {
        match self {
            Call::Transfer { value, .. } => value,
            Call::TransferFrom { value, .. } => value,
            Call::Approve { value, .. } => value,
            Call::Issue { value, .. } => value,
        }
    }
}

/// The ledger after one request, granted or refused.
pub open spec fn apply(s: Ledger, call: Call) -> Ledger {
    match call {
        Call::Transfer { from, dest, value } => s.after_transfer(from, dest, value),
        Call::TransferFrom { origin, from, to, value } => s.after_transfer_from(
            origin,
            from,
            to,
            value,
        ),
        Call::Approve { from, who, value } => s.after_approve(from, who, value),
        Call::Issue { authorized, to, value } => s.after_issue(authorized, to, value),
    }
}

/// The ledger after a sequence of requests, taken in order.
pub open spec fn run(s: Ledger, calls: Seq<Call>) -> Ledger
    decreases calls.len(),
{
    if calls.len() == 0 {
        s
    } else {
        apply(run(s, calls.drop_last()), calls.last())
    }
}

impl Call {
    /// Whether the request names `who` as an account to debit or credit.
    pub open spec fn touches(self, who: AccountId) -> bool {
        match self {
            Call::Transfer { from, dest, .. } => who == from || who == dest,
            Call::TransferFrom { from, to, .. } => who == from || who == to,
            Call::Approve { .. } => false,
            Call::Issue { to, .. } => who == to,
        }
    }
}

/// The sum of what the store holds for the accounts in `accounts`.
pub open spec fn total_held(balances: Map<AccountId, Balance>, accounts: Seq<AccountId>) -> int
    decreases accounts.len(),
{
    if accounts.len() == 0 {
        0
    } else {
        total_held(balances, accounts.drop_last()) + held(balances, accounts.last())
    }
}

/// The ledger after `n` authorized requests to issue `value` to `to`.
pub open spec fn issued_repeatedly(s: Ledger, to: AccountId, value: Balance, n: nat) -> Ledger
    decreases n,
{
    if n == 0 {
        s
    } else {
        issued_repeatedly(s, to, value, (n - 1) as nat).after_issue(true, to, value)
    }
}

/// A transfer, granted or refused, keeps the sum of the sender's and the
/// recipient's balance, whether they are two accounts or one, and touches
/// nothing else.
pub proof fn lemma_transfer_conserves(s: Ledger, a: AccountId, b: AccountId, v: Balance)
    ensures
        s.after_transfer(a, b, v).balance_of(a) + s.after_transfer(a, b, v).balance_of(b)
            == s.balance_of(a) + s.balance_of(b),
        forall|c: AccountId|
            c != a && c != b ==> #[trigger] s.after_transfer(a, b, v).balance_of(c)
                == s.balance_of(c),
        s.after_transfer(a, b, v).allowances == s.allowances,
        s.after_transfer(a, b, v).total_supply == s.total_supply,
{
}

/// A granted transfer takes exactly `v` from the sender and gives exactly `v`
/// to the recipient, where the two differ; an account that pays itself keeps
/// its balance.
pub proof fn lemma_transfer_moves_value(s: Ledger, a: AccountId, b: AccountId, v: Balance)
    requires
        s.transfer_error(a, b, v) is None,
    ensures
        a != b ==> s.after_transfer(a, b, v).balance_of(a) == s.balance_of(a) - v,
        a != b ==> s.after_transfer(a, b, v).balance_of(b) == s.balance_of(b) + v,
        a == b ==> s.after_transfer(a, b, v).balance_of(a) == s.balance_of(a),
{
}

/// Writing the balance of an account that is not among `accounts` leaves
/// their total as it was.
proof fn lemma_total_ignores_others(
    balances: Map<AccountId, Balance>,
    accounts: Seq<AccountId>,
    who: AccountId,
    value: Balance,
)
    requires
        !accounts.contains(who),
    ensures
        total_held(balances.insert(who, value), accounts) == total_held(balances, accounts),
    decreases accounts.len(),
{
    if accounts.len() > 0 {
        let rest = accounts.drop_last();
        assert(accounts.last() == accounts[accounts.len() - 1]);
        assert(accounts.contains(accounts.last()));
        assert forall|a: AccountId| rest.contains(a) implies accounts.contains(a) by {
            let i = choose|i: int| 0 <= i < rest.len() && rest[i] == a;
            assert(accounts[i] == a);
        }
        lemma_total_ignores_others(balances, rest, who, value);
    }
}

/// Writing the balance of one of `accounts`, each named once, moves their
/// total by the difference between the new balance and the old.
proof fn lemma_total_follows_one(
    balances: Map<AccountId, Balance>,
    accounts: Seq<AccountId>,
    who: AccountId,
    value: Balance,
)
    requires
        accounts.no_duplicates(),
        accounts.contains(who),
    ensures
        total_held(balances.insert(who, value), accounts) == total_held(balances, accounts) - held(
            balances,
            who,
        ) + value,
    decreases accounts.len(),
{
    let rest = accounts.drop_last();
    let last = accounts.last();
    assert(accounts.len() > 0);
    assert(rest.no_duplicates());
    if last == who {
        assert(!rest.contains(who)) by {
            if rest.contains(who) {
                let i = choose|i: int| 0 <= i < rest.len() && rest[i] == who;
                assert(accounts[i] == accounts[accounts.len() - 1]);
            }
        }
        lemma_total_ignores_others(balances, rest, who, value);
    } else {
        assert(rest.contains(who)) by {
            let i = choose|i: int| 0 <= i < accounts.len() && accounts[i] == who;
            assert(rest[i] == who);
        }
        lemma_total_follows_one(balances, rest, who, value);
    }
}

/// Nothing but `issue` creates balance, and `issue` takes it from the
/// reserve: over accounts that are each named once and hold those that the
/// request debits or credits, the total of the balances and the reserve is
/// after the request what it was before.
pub proof fn lemma_call_conserves_supply(s: Ledger, call: Call, accounts: Seq<AccountId>)
    requires
        accounts.no_duplicates(),
        forall|who: AccountId| call.touches(who) ==> accounts.contains(who),
    ensures
        total_held(apply(s, call).balances, accounts) + apply(s, call).total_supply == total_held(
            s.balances,
            accounts,
        ) + s.total_supply,
        !(call is Issue) ==> apply(s, call).total_supply == s.total_supply,
{
    match call {
        Call::Transfer { from, dest, value } => {
            if value != 0 && s.transfer_error(from, dest, value) is None {
                assert(call.touches(from) && call.touches(dest));
                let debited = s.with_balance(from, (s.balance_of(from) - value) as Balance);
                lemma_total_follows_one(
                    s.balances,
                    accounts,
                    from,
                    (s.balance_of(from) - value) as Balance,
                );
                lemma_total_follows_one(
                    debited.balances,
                    accounts,
                    dest,
                    (debited.balance_of(dest) + value) as Balance,
                );
            }
        },
        Call::TransferFrom { origin, from, to, value } => {
            if value != 0 && s.transfer_from_error(origin, from, to, value) is None {
                assert(call.touches(from) && call.touches(to));
                let debited = s.with_balance(from, (s.balance_of(from) - value) as Balance);
                lemma_total_follows_one(
                    s.balances,
                    accounts,
                    from,
                    (s.balance_of(from) - value) as Balance,
                );
                lemma_total_follows_one(
                    debited.balances,
                    accounts,
                    to,
                    (debited.balance_of(to) + value) as Balance,
                );
            }
        },
        Call::Approve { .. } => {},
        Call::Issue { authorized, to, value } => {
            if value != 0 && s.issue_error(authorized, to, value) is None {
                assert(call.touches(to));
                lemma_total_follows_one(
                    s.balances,
                    accounts,
                    to,
                    (s.balance_of(to) + value) as Balance,
                );
            }
        },
    }
}

/// Over any sequence of requests the total of the balances and the reserve
/// stays what it was, for accounts that are each named once and hold those
/// that the requests debit or credit.
pub proof fn lemma_run_conserves_supply(s: Ledger, calls: Seq<Call>, accounts: Seq<AccountId>)
    requires
        accounts.no_duplicates(),
        forall|i: int, who: AccountId|
            0 <= i < calls.len() && #[trigger] calls[i].touches(who) ==> accounts.contains(who),
    ensures
        total_held(run(s, calls).balances, accounts) + run(s, calls).total_supply == total_held(
            s.balances,
            accounts,
        ) + s.total_supply,
    decreases calls.len(),
{
    if calls.len() > 0 {
        let earlier = calls.drop_last();
        assert forall|i: int, who: AccountId|
            0 <= i < earlier.len() && #[trigger] earlier[i].touches(who) implies accounts.contains(
            who,
        ) by {
            assert(earlier[i] == calls[i]);
        }
        lemma_run_conserves_supply(s, earlier, accounts);
        assert forall|who: AccountId| calls.last().touches(who) implies accounts.contains(who) by {
            assert(calls.last() == calls[calls.len() - 1]);
        }
        lemma_call_conserves_supply(run(s, earlier), calls.last(), accounts);
    }
}

/// A request changes a balance by the amount it names, up or down, or not at
/// all: no balance wraps around.
pub proof fn lemma_call_moves_exact_amounts(s: Ledger, call: Call, who: AccountId)
    ensures
        apply(s, call).balance_of(who) == s.balance_of(who) || apply(s, call).balance_of(who)
            == s.balance_of(who) - call.value() || apply(s, call).balance_of(who) == s.balance_of(
            who,
        ) + call.value(),
{
}

/// After any sequence of requests, every balance read is a number from zero
/// to the largest balance.
pub proof fn lemma_balances_never_negative(s: Ledger, calls: Seq<Call>, who: AccountId)
    ensures
        0 <= run(s, calls).balance_of(who) <= Balance::MAX,
{
}

/// A granted `transfer_from` lowers the spender's allowance by exactly `v`,
/// debits the owner and credits the recipient by `v`.
pub proof fn lemma_transfer_from_spends_allowance(
    s: Ledger,
    c: AccountId,
    o: AccountId,
    r: AccountId,
    v: Balance,
)
    requires
        s.transfer_from_error(c, o, r, v) is None,
    ensures
        s.after_transfer_from(c, o, r, v).allowance_of(o, c) == s.allowance_of(o, c) - v,
        o != r ==> s.after_transfer_from(c, o, r, v).balance_of(o) == s.balance_of(o) - v,
        o != r ==> s.after_transfer_from(c, o, r, v).balance_of(r) == s.balance_of(r) + v,
        o == r ==> s.after_transfer_from(c, o, r, v).balance_of(o) == s.balance_of(o),
        s.after_transfer_from(c, o, r, v).total_supply == s.total_supply,
{
}

/// Two approvals in a row add up: the allowance ends at the old one plus both
/// amounts, or at the largest balance where that is less.
pub proof fn lemma_approve_is_additive(
    s: Ledger,
    a: AccountId,
    b: AccountId,
    v1: Balance,
    v2: Balance,
)
    ensures
        s.after_approve(a, b, v1).after_approve(a, b, v2).allowance_of(a, b) == (if s.allowance_of(
            a,
            b,
        ) + v1 + v2 <= Balance::MAX {
            s.allowance_of(a, b) + v1 + v2
        } else {
            Balance::MAX as int
        }),
        s.after_approve(a, b, v1).allowance_of(a, b) == saturating_sum(s.allowance_of(a, b), v1),
        s.after_approve(a, b, v1).balances == s.balances,
        s.after_approve(a, b, v1).total_supply == s.total_supply,
{
}

/// `issue` never raises the reserve: a granted request lowers it by `v`, and
/// the recipient gains what the reserve loses. It is refused for want of
/// supply exactly where it asks for more than the reserve holds.
pub proof fn lemma_issue_draws_on_supply(s: Ledger, authorized: bool, to: AccountId, v: Balance)
    ensures
        s.after_issue(authorized, to, v).total_supply <= s.total_supply,
        s.issue_error(authorized, to, v) is None ==> s.after_issue(authorized, to, v).total_supply
            == s.total_supply - v,
        s.after_issue(authorized, to, v).balance_of(to) + s.after_issue(
            authorized,
            to,
            v,
        ).total_supply == s.balance_of(to) + s.total_supply,
        s.issue_error(authorized, to, v) == Some(Error::SupplyExhausted) <==> authorized && v
            > s.total_supply,
{
}

/// No sequence of requests raises the reserve above what it started with.
pub proof fn lemma_supply_never_grows(s: Ledger, calls: Seq<Call>)
    ensures
        run(s, calls).total_supply <= s.total_supply,
    decreases calls.len(),
{
    if calls.len() > 0 {
        lemma_supply_never_grows(s, calls.drop_last());
    }
}

/// Issuing the same positive amount again and again runs into a refusal: once
/// `n` requests ask for more than the reserve held in all, the next one is
/// refused, and for want of supply where the recipient could have taken the
/// whole reserve.
pub proof fn lemma_repeated_issue_is_refused(
    s: Ledger,
    to: AccountId,
    v: Balance,
    n: nat,
)
    requires
        v > 0,
        n * v > s.total_supply,
    ensures
        issued_repeatedly(s, to, v, n).issue_error(true, to, v) is Some,
        s.balance_of(to) + s.total_supply <= Balance::MAX ==> issued_repeatedly(
            s,
            to,
            v,
            n,
        ).issue_error(true, to, v) == Some(Error::SupplyExhausted),
{
    let last = issued_repeatedly(s, to, v, n);
    lemma_repeated_issue_progress(s, to, v, n);
    assert(last.total_supply != s.total_supply - n * v);
    if s.balance_of(to) + s.total_supply <= Balance::MAX {
        assert(last.balance_of(to) + v <= Balance::MAX || last.total_supply < v);
    }
}

/// After `n` requests to issue `v`, either all were granted and the reserve
/// is down by `n * v`, or the next request is refused. The recipient's
/// balance and the reserve keep their sum.
proof fn lemma_repeated_issue_progress(s: Ledger, to: AccountId, v: Balance, n: nat)
    requires
        v > 0,
    ensures
        issued_repeatedly(s, to, v, n).total_supply == s.total_supply - n * v || issued_repeatedly(
            s,
            to,
            v,
            n,
        ).issue_error(true, to, v) is Some,
        issued_repeatedly(s, to, v, n).balance_of(to) + issued_repeatedly(s, to, v, n).total_supply
            == s.balance_of(to) + s.total_supply,
    decreases n,
{
    if n == 0 {
        assert(n * v == 0) by (nonlinear_arith)
            requires
                n == 0,
        ;
    } else {
        let before = issued_repeatedly(s, to, v, (n - 1) as nat);
        let after = issued_repeatedly(s, to, v, n);
        lemma_repeated_issue_progress(s, to, v, (n - 1) as nat);
        assert(after == before.after_issue(true, to, v));
        if before.issue_error(true, to, v) is None {
            assert(after.total_supply == before.total_supply - v);
            assert(n * v == (n - 1) * v + v) by (nonlinear_arith);
        } else {
            assert(after == before);
        }
    }
}

/// A request for nothing changes nothing and reports no event.
pub proof fn lemma_zero_amount_is_noop(
    s: Ledger,
    a: AccountId,
    b: AccountId,
    c: AccountId,
    event: Event,
)
    ensures
        s.transfer_error(a, b, 0) is None,
        s.after_transfer(a, b, 0) == s,
        s.transfer_from_error(c, a, b, 0) is None,
        s.after_transfer_from(c, a, b, 0) == s,
        s.after_approve(a, b, 0) == s,
        s.issue_error(true, a, 0) is None,
        s.after_issue(true, a, 0) == s,
        emitted(0, event) is None,
{
}

/// No request deletes an entry of either store, and none touches the token's
/// name and symbol.
pub proof fn lemma_entries_are_kept(s: Ledger, call: Call)
    ensures
        s.balances.dom().subset_of(apply(s, call).balances.dom()),
        s.allowances.dom().subset_of(apply(s, call).allowances.dom()),
        apply(s, call).name == s.name,
        apply(s, call).symbol == s.symbol,
{
}

/// What is answered before the accounts are known is what the operation
/// answers whatever the accounts and the ledger: a request settled unseen
/// changes nothing and reports no event.
pub proof fn lemma_settled_unseen_is_final(
    s: Ledger,
    origin: AccountId,
    from: AccountId,
    to: AccountId,
    authorized: bool,
    v: Balance,
    event: Event,
)
    ensures
        settled_unseen(v) is Some ==> {
            &&& settled_unseen(v) == Some(Ok::<(), Error>(()))
            &&& s.transfer_error(from, to, v) is None
            &&& s.after_transfer(from, to, v) == s
            &&& s.transfer_from_error(origin, from, to, v) is None
            &&& s.after_transfer_from(origin, from, to, v) == s
            &&& s.after_approve(from, to, v) == s
            &&& emitted(v, event) is None
        },
        settled_unseen(v) is None ==> emitted(v, event) == Some(event),
        issue_settled_unseen(authorized, v) matches Some(Err(e)) ==> {
            &&& s.issue_error(authorized, to, v) == Some(e)
            &&& s.after_issue(authorized, to, v) == s
        },
        issue_settled_unseen(authorized, v) == Some(Ok::<(), Error>(())) ==> {
            &&& s.issue_error(authorized, to, v) is None
            &&& s.after_issue(authorized, to, v) == s
            &&& emitted(v, event) is None
        },
        issue_settled_unseen(authorized, v) is None ==> authorized && emitted(v, event) == Some(
            event,
        ),
{
}

/// A refused request leaves the ledger as it was.
pub proof fn lemma_refused_call_changes_nothing(
    s: Ledger,
    origin: AccountId,
    from: AccountId,
    to: AccountId,
    authorized: bool,
    v: Balance,
)
    ensures
        s.transfer_error(from, to, v) is Some ==> s.after_transfer(from, to, v) == s,
        s.transfer_from_error(origin, from, to, v) is Some ==> s.after_transfer_from(
            origin,
            from,
            to,
            v,
        ) == s,
        s.issue_error(authorized, to, v) is Some ==> s.after_issue(authorized, to, v) == s,
{
}

} // verus!

use pallet_erc20::{AccountId, Balance, Config, Error, Event, GenesisConfig, Pallet};

const A: AccountId = 1;
const B: AccountId = 2;
const C: AccountId = 3;
const D: AccountId = 4;
const E: AccountId = 5;

fn config() -> Config {
    Config { max_name_length: 50, max_symbol_length: 50 }
}

fn ledger(balances: Vec<(AccountId, Balance)>, total_supply: Balance) -> Pallet {
    GenesisConfig {
        balances,
        allowances: vec![],
        total_supply,
        name: "Ethereum".to_string(),
        symbol: "ETH".to_string(),
    }
    .build(&config())
}

fn funded() -> Pallet {
    ledger(vec![(A, 2000), (B, 0)], 1000)
}

#[test]
fn transfer_moves_funds_and_reports_it() {
    let mut p = funded();
    let r = p.transfer(A, B, 500);
    assert_eq!(r, Ok(Some(Event::Transfer { from: A, to: B, amount: 500 })));
    assert_eq!(p.balance_of(&A), 1500);
    assert_eq!(p.balance_of(&B), 500);
    assert_eq!(p.total_supply(), 1000);
}

#[test]
fn transfer_beyond_balance_is_refused() {
    let mut p = funded();
    assert_eq!(p.transfer(A, B, 500), Ok(Some(Event::Transfer { from: A, to: B, amount: 500 })));
    assert_eq!(p.transfer(A, B, 5000), Err(Error::InsufficientFunds));
    assert_eq!(p.balance_of(&A), 1500);
    assert_eq!(p.balance_of(&B), 500);
}

#[test]
fn transfer_adds_to_what_the_recipient_holds() {
    let mut p = ledger(vec![(A, 2000), (B, 70)], 0);
    assert!(p.transfer(A, B, 30).is_ok());
    assert_eq!(p.balance_of(&A), 1970);
    assert_eq!(p.balance_of(&B), 100);
}

#[test]
fn transfer_of_whole_balance_leaves_zero() {
    let mut p = funded();
    assert!(p.transfer(A, B, 2000).is_ok());
    assert_eq!(p.balance_of(&A), 0);
    assert_eq!(p.balance_of(&B), 2000);
    assert_eq!(p.transfer(A, B, 1), Err(Error::InsufficientFunds));
}

#[test]
fn transfer_from_unknown_account_is_refused() {
    let mut p = funded();
    assert_eq!(p.transfer(E, B, 1), Err(Error::InsufficientFunds));
    assert_eq!(p.balance_of(&E), 0);
    assert_eq!(p.balance_of(&B), 0);
}

#[test]
fn transfer_that_overflows_recipient_is_refused() {
    let mut p = ledger(vec![(A, 10), (B, Balance::MAX - 5)], 0);
    assert_eq!(p.transfer(A, B, 6), Err(Error::BalanceOverflow));
    assert_eq!(p.balance_of(&A), 10);
    assert_eq!(p.balance_of(&B), Balance::MAX - 5);
    assert_eq!(p.transfer(A, B, 5), Ok(Some(Event::Transfer { from: A, to: B, amount: 5 })));
    assert_eq!(p.balance_of(&A), 5);
    assert_eq!(p.balance_of(&B), Balance::MAX);
}

#[test]
fn transfer_checks_funds_before_overflow() {
    let mut p = ledger(vec![(A, 1), (B, Balance::MAX)], 0);
    assert_eq!(p.transfer(A, B, 2), Err(Error::InsufficientFunds));
    assert_eq!(p.transfer(A, B, 1), Err(Error::BalanceOverflow));
}

#[test]
fn transfer_to_oneself_creates_nothing() {
    let mut p = funded();
    assert_eq!(p.transfer(A, A, 500), Ok(Some(Event::Transfer { from: A, to: A, amount: 500 })));
    assert_eq!(p.balance_of(&A), 2000);
    assert_eq!(p.transfer(A, A, 2000), Ok(Some(Event::Transfer { from: A, to: A, amount: 2000 })));
    assert_eq!(p.balance_of(&A), 2000);
    assert_eq!(p.total_supply(), 1000);
    assert_eq!(p.transfer(A, A, 2001), Err(Error::InsufficientFunds));
    assert_eq!(p.balance_of(&A), 2000);
}

#[test]
fn transfer_to_oneself_cannot_overflow() {
    let mut q = ledger(vec![(A, Balance::MAX)], 0);
    assert_eq!(q.transfer(A, A, 1), Ok(Some(Event::Transfer { from: A, to: A, amount: 1 })));
    assert_eq!(q.balance_of(&A), Balance::MAX);
    assert_eq!(
        q.transfer(A, A, Balance::MAX),
        Ok(Some(Event::Transfer { from: A, to: A, amount: Balance::MAX }))
    );
    assert_eq!(q.balance_of(&A), Balance::MAX);
}

#[test]
fn only_issue_changes_the_total_of_balances_and_reserve() {
    let mut p = ledger(vec![(A, 2000), (B, 30), (C, 0)], 1000);
    let total = |p: &Pallet| {
        p.balance_of(&A) + p.balance_of(&B) + p.balance_of(&C) + p.balance_of(&D)
            + p.total_supply()
    };
    assert_eq!(total(&p), 3030);
    let _ = p.transfer(A, B, 700);
    let _ = p.transfer(B, B, 5);
    let _ = p.transfer(C, A, 1);
    let _ = p.approve(A, C, 400);
    let _ = p.transfer_from(C, A, D, 150);
    let _ = p.transfer_from(C, A, A, 50);
    let _ = p.transfer_from(C, A, D, 500);
    let _ = p.issue(true, D, 250);
    let _ = p.issue(true, A, 5000);
    let _ = p.issue(false, A, 1);
    assert_eq!(total(&p), 3030);
    assert_eq!(p.balance_of(&A), 1150);
    assert_eq!(p.balance_of(&B), 730);
    assert_eq!(p.balance_of(&C), 0);
    assert_eq!(p.balance_of(&D), 400);
    assert_eq!(p.total_supply(), 750);
    assert_eq!(p.allowance_of(&A, &C), 200);
}

#[test]
fn a_request_for_nothing_is_settled_before_accounts_are_known() {
    assert_eq!(Pallet::settle_unseen(0), Some(Ok(())));
    assert_eq!(Pallet::settle_unseen(1), None);
    assert_eq!(Pallet::settle_unseen(Balance::MAX), None);
}

#[test]
fn issue_is_settled_before_the_recipient_is_known() {
    assert_eq!(Pallet::settle_issue_unseen(false, 0), Some(Err(Error::Unauthorized)));
    assert_eq!(Pallet::settle_issue_unseen(false, 7), Some(Err(Error::Unauthorized)));
    assert_eq!(Pallet::settle_issue_unseen(true, 0), Some(Ok(())));
    assert_eq!(Pallet::settle_issue_unseen(true, 7), None);
}

#[test]
fn transfer_keeps_the_sum_of_both_balances() {
    let mut p = ledger(vec![(A, 900), (B, 100)], 0);
    for v in [0, 1, 250, 649, 1000] {
        let before = p.balance_of(&A) + p.balance_of(&B);
        let _ = p.transfer(A, B, v);
        assert_eq!(p.balance_of(&A) + p.balance_of(&B), before);
    }
    assert_eq!(p.balance_of(&A), 0);
    assert_eq!(p.balance_of(&B), 1000);
}

#[test]
fn approve_then_transfer_from_spends_the_allowance() {
    let mut p = funded();
    assert_eq!(p.approve(A, C, 500), Ok(Some(Event::Approval { from: A, to: C, amount: 500 })));
    assert_eq!(p.allowance_of(&A, &C), 500);
    let r = p.transfer_from(C, A, D, 500);
    assert_eq!(r, Ok(Some(Event::Transfer { from: A, to: D, amount: 500 })));
    assert_eq!(p.balance_of(&A), 1500);
    assert_eq!(p.balance_of(&D), 500);
    assert_eq!(p.allowance_of(&A, &C), 0);
    assert_eq!(p.transfer_from(C, A, D, 1), Err(Error::NoAllowance));
    assert_eq!(p.balance_of(&A), 1500);
    assert_eq!(p.balance_of(&D), 500);
}

#[test]
fn transfer_from_lowers_allowance_by_the_amount() {
    let mut p = funded();
    assert!(p.approve(A, C, 500).is_ok());
    assert!(p.transfer_from(C, A, D, 120).is_ok());
    assert_eq!(p.allowance_of(&A, &C), 380);
    assert_eq!(p.balance_of(&A), 1880);
    assert_eq!(p.balance_of(&D), 120);
    assert_eq!(p.balance_of(&C), 0);
}

#[test]
fn transfer_from_without_allowance_is_refused() {
    let mut p = funded();
    assert_eq!(p.transfer_from(C, A, D, 1), Err(Error::NoAllowance));
    assert!(p.approve(A, C, 10).is_ok());
    assert_eq!(p.transfer_from(D, A, C, 1), Err(Error::NoAllowance));
    assert_eq!(p.transfer_from(A, C, D, 1), Err(Error::NoAllowance));
}

#[test]
fn transfer_from_beyond_allowance_is_refused() {
    let mut p = funded();
    assert!(p.approve(A, C, 10).is_ok());
    assert_eq!(p.transfer_from(C, A, D, 11), Err(Error::InsufficientAllowance));
    assert_eq!(p.allowance_of(&A, &C), 10);
    assert_eq!(p.balance_of(&A), 2000);
    assert_eq!(p.balance_of(&D), 0);
}

#[test]
fn transfer_from_beyond_owner_funds_is_refused() {
    let mut p = ledger(vec![(A, 5)], 0);
    assert!(p.approve(A, C, 10).is_ok());
    assert_eq!(p.transfer_from(C, A, D, 6), Err(Error::InsufficientFunds));
    assert_eq!(p.allowance_of(&A, &C), 10);
    assert_eq!(p.balance_of(&A), 5);
}

#[test]
fn transfer_from_checks_allowance_before_funds() {
    let mut p = ledger(vec![(A, 5)], 0);
    assert_eq!(p.transfer_from(C, A, D, 6), Err(Error::NoAllowance));
    assert!(p.approve(A, C, 5).is_ok());
    assert_eq!(p.transfer_from(C, A, D, 6), Err(Error::InsufficientAllowance));
}

#[test]
fn transfer_from_that_overflows_recipient_changes_nothing() {
    let mut p = ledger(vec![(A, 10), (D, Balance::MAX - 1)], 0);
    assert!(p.approve(A, C, 10).is_ok());
    assert_eq!(p.transfer_from(C, A, D, 2), Err(Error::BalanceOverflow));
    assert_eq!(p.balance_of(&A), 10);
    assert_eq!(p.allowance_of(&A, &C), 10);
    assert_eq!(p.balance_of(&D), Balance::MAX - 1);
    assert!(p.transfer_from(C, A, D, 1).is_ok());
    assert_eq!(p.balance_of(&D), Balance::MAX);
}

#[test]
fn transfer_from_back_to_the_owner_only_spends_allowance() {
    let mut p = ledger(vec![(A, Balance::MAX)], 0);
    assert!(p.approve(A, C, 10).is_ok());
    assert_eq!(
        p.transfer_from(C, A, A, 4),
        Ok(Some(Event::Transfer { from: A, to: A, amount: 4 }))
    );
    assert_eq!(p.balance_of(&A), Balance::MAX);
    assert_eq!(p.allowance_of(&A, &C), 6);
}

#[test]
fn approve_twice_adds_up() {
    let mut p = funded();
    assert_eq!(p.approve(A, B, 300), Ok(Some(Event::Approval { from: A, to: B, amount: 300 })));
    assert_eq!(p.approve(A, B, 200), Ok(Some(Event::Approval { from: A, to: B, amount: 200 })));
    assert_eq!(p.allowance_of(&A, &B), 500);
    assert_eq!(p.allowance_of(&B, &A), 0);
}

#[test]
fn approve_stops_at_the_largest_balance() {
    let mut p = funded();
    assert!(p.approve(A, B, Balance::MAX - 1).is_ok());
    assert_eq!(
        p.approve(A, B, 7),
        Ok(Some(Event::Approval { from: A, to: B, amount: 7 }))
    );
    assert_eq!(p.allowance_of(&A, &B), Balance::MAX);
}

#[test]
fn approve_needs_no_funds() {
    let mut p = ledger(vec![], 0);
    assert!(p.approve(A, B, 10).is_ok());
    assert_eq!(p.allowance_of(&A, &B), 10);
    assert_eq!(p.balance_of(&A), 0);
}

#[test]
fn update_approve_adds_to_the_allowance() {
    let mut p = funded();
    p.update_approve(&A, &C, 500);
    p.update_approve(&A, &C, 1);
    assert_eq!(p.allowance_of(&A, &C), 501);
    p.update_approve(&A, &C, Balance::MAX);
    assert_eq!(p.allowance_of(&A, &C), Balance::MAX);
}

#[test]
fn transfer_from_after_update_approve() {
    let mut p = funded();
    let before = p.balance_of(&A);
    p.update_approve(&A, &C, 500);
    assert!(p.transfer_from(C, A, D, 500).is_ok());
    assert_eq!(p.allowance_of(&A, &C), 0);
    assert_eq!(p.balance_of(&A), before.saturating_sub(500));
    assert_eq!(p.balance_of(&D), 500);
}

#[test]
fn new_ledger_has_no_entries() {
    let p = Pallet::new(vec![1, 2], vec![3], 77);
    assert_eq!(p.name(), &vec![1, 2]);
    assert_eq!(p.symbol(), &vec![3]);
    assert_eq!(p.total_supply(), 77);
    assert_eq!(p.balance_of(&A), 0);
    assert_eq!(p.allowance_of(&A, &B), 0);
}

#[test]
fn update_balance_overwrites() {
    let mut p = funded();
    p.update_balance(&A, 7);
    assert_eq!(p.balance_of(&A), 7);
    p.update_balance(&E, 9);
    assert_eq!(p.balance_of(&E), 9);
    assert_eq!(p.balance_of(&B), 0);
}

#[test]
fn issue_draws_on_the_reserve() {
    let mut p = funded();
    assert_eq!(p.issue(true, E, 400), Ok(Some(Event::Issuance { to: E, amount: 400 })));
    assert_eq!(p.balance_of(&E), 400);
    assert_eq!(p.total_supply(), 600);
    assert_eq!(p.issue(true, A, 600), Ok(Some(Event::Issuance { to: A, amount: 600 })));
    assert_eq!(p.balance_of(&A), 2600);
    assert_eq!(p.total_supply(), 0);
}

#[test]
fn issue_beyond_the_reserve_is_refused() {
    let mut p = funded();
    assert_eq!(p.issue(true, E, 1001), Err(Error::SupplyExhausted));
    assert_eq!(p.balance_of(&E), 0);
    assert_eq!(p.total_supply(), 1000);
}

#[test]
fn repeated_issue_exhausts_the_reserve() {
    let mut p = funded();
    let mut granted = 0;
    let mut last = Ok(None);
    for _ in 0..5 {
        let before = p.total_supply();
        last = p.issue(true, E, 300);
        assert!(p.total_supply() <= before);
        if last.is_ok() {
            granted += 1;
        }
    }
    assert_eq!(granted, 3);
    assert_eq!(last, Err(Error::SupplyExhausted));
    assert_eq!(p.total_supply(), 100);
    assert_eq!(p.balance_of(&E), 900);
}

#[test]
fn issue_that_overflows_recipient_is_refused() {
    let mut p = ledger(vec![(E, Balance::MAX - 1)], 1000);
    assert_eq!(p.issue(true, E, 2), Err(Error::BalanceOverflow));
    assert_eq!(p.balance_of(&E), Balance::MAX - 1);
    assert_eq!(p.total_supply(), 1000);
    assert_eq!(p.issue(true, E, 1001), Err(Error::SupplyExhausted));
}

#[test]
fn issue_without_authority_is_refused() {
    let mut p = funded();
    assert_eq!(p.issue(false, E, 1), Err(Error::Unauthorized));
    assert_eq!(p.issue(false, E, 0), Err(Error::Unauthorized));
    assert_eq!(p.issue(false, E, 5000), Err(Error::Unauthorized));
    assert_eq!(p.balance_of(&E), 0);
    assert_eq!(p.total_supply(), 1000);
}

#[test]
fn zero_amounts_change_nothing() {
    let mut p = funded();
    assert!(p.approve(A, C, 5).is_ok());
    assert_eq!(p.transfer(A, B, 0), Ok(None));
    assert_eq!(p.transfer(E, B, 0), Ok(None));
    assert_eq!(p.transfer_from(C, A, D, 0), Ok(None));
    assert_eq!(p.transfer_from(D, A, C, 0), Ok(None));
    assert_eq!(p.approve(A, B, 0), Ok(None));
    assert_eq!(p.issue(true, A, 0), Ok(None));
    assert_eq!(p.balance_of(&A), 2000);
    assert_eq!(p.balance_of(&B), 0);
    assert_eq!(p.balance_of(&D), 0);
    assert_eq!(p.allowance_of(&A, &B), 0);
    assert_eq!(p.allowance_of(&A, &C), 5);
    assert_eq!(p.total_supply(), 1000);
}

#[test]
fn issue_from_the_largest_reserve() {
    let mut p = GenesisConfig::default().build(&config());
    assert_eq!(p.issue(true, B, 500), Ok(Some(Event::Issuance { to: B, amount: 500 })));
    assert_eq!(p.total_supply(), Balance::MAX - 500);
    assert_eq!(p.balance_of(&B), 500);
}

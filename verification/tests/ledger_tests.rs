//! The ledger's primitives on their own: transfers, credits, and the
//! minimum-existence rule.

use charity::ledger::{Ledger, LedgerError, NegativeImbalance};

fn small_ledger(min_balance: u64) -> Ledger {
    let mut ledger = Ledger::new(min_balance);
    ledger.make_free_balance_be(1, 13);
    ledger.make_free_balance_be(2, 11);
    ledger
}

#[test]
fn new_ledger_is_empty() {
    let ledger = Ledger::new(7);
    assert_eq!(ledger.minimum_balance(), 7);
    assert_eq!(ledger.free_balance(1), 0);
}

#[test]
fn make_free_balance_be_overwrites() {
    let mut ledger = small_ledger(0);
    ledger.make_free_balance_be(1, 4);
    assert_eq!(ledger.free_balance(1), 4);
    assert_eq!(ledger.free_balance(2), 11);
}

#[test]
fn transfer_moves_funds() {
    let mut ledger = small_ledger(1);
    assert_eq!(ledger.transfer(1, 2, 10, true), Ok(()));
    assert_eq!(ledger.free_balance(1), 3);
    assert_eq!(ledger.free_balance(2), 21);
}

#[test]
fn transfer_is_all_or_nothing() {
    let mut ledger = small_ledger(1);
    assert_eq!(
        ledger.transfer(1, 2, 14, true),
        Err(LedgerError::InsufficientBalance)
    );
    assert_eq!(ledger.free_balance(1), 13);
    assert_eq!(ledger.free_balance(2), 11);
}

#[test]
fn transfer_without_removal_keeps_the_minimum() {
    let mut ledger = small_ledger(1);

    // Spending everything is refused when the account must stay alive ...
    assert_eq!(
        ledger.transfer(1, 2, 13, false),
        Err(LedgerError::InsufficientBalance)
    );

    // ... but everything above the minimum may go.
    assert_eq!(ledger.transfer(1, 2, 12, false), Ok(()));
    assert_eq!(ledger.free_balance(1), 1);
    assert_eq!(ledger.free_balance(2), 23);
}

#[test]
fn transfer_with_removal_may_drain_the_sender() {
    let mut ledger = small_ledger(1);
    assert_eq!(ledger.transfer(1, 2, 13, true), Ok(()));
    assert_eq!(ledger.free_balance(1), 0);
    assert_eq!(ledger.free_balance(2), 24);
}

#[test]
fn transfer_to_oneself_moves_nothing() {
    let mut ledger = small_ledger(1);
    assert_eq!(ledger.transfer(1, 1, 5, true), Ok(()));
    assert_eq!(ledger.free_balance(1), 13);
    assert_eq!(
        ledger.transfer(1, 1, 14, true),
        Err(LedgerError::InsufficientBalance)
    );
}

#[test]
fn transfer_refuses_recipient_overflow() {
    let mut ledger = small_ledger(0);
    ledger.make_free_balance_be(2, u64::MAX - 5);
    assert_eq!(ledger.transfer(1, 2, 6, true), Err(LedgerError::Overflow));
    assert_eq!(ledger.free_balance(1), 13);
    assert_eq!(ledger.free_balance(2), u64::MAX - 5);
}

#[test]
fn resolve_creating_credits_missing_accounts() {
    let mut ledger = small_ledger(1);
    ledger.resolve_creating(9, NegativeImbalance::new(5));
    assert_eq!(ledger.free_balance(9), 5);

    let surplus = NegativeImbalance::new(2);
    assert_eq!(surplus.peek(), 2);
    ledger.resolve_creating(9, surplus);
    assert_eq!(ledger.free_balance(9), 7);
}

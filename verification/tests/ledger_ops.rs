use moloch::errors::Error;
use moloch::ledger::Ledger;

#[test]
fn init_credits_owner_once() {
    let mut l = Ledger::new();
    assert!(!l.is_init());
    assert_eq!(l.init(1, 500), Ok(()));
    assert!(l.is_init());
    assert_eq!(l.balance_of(1), 500);
    assert_eq!(l.init(1, 500), Err(Error::AlreadyInitialized));
    assert_eq!(l.init(2, 7), Err(Error::AlreadyInitialized));
    assert_eq!(l.balance_of(1), 500);
    assert_eq!(l.balance_of(2), 0);
}

#[test]
fn init_credits_an_existing_balance() {
    // Initialization adds to whatever the owner already holds; it does not
    // overwrite it.
    let mut l = Ledger::new();
    assert_eq!(l.mint(1, 5), Ok(()));
    assert_eq!(l.init(1, 10), Ok(()));
    assert!(l.is_init());
    assert_eq!(l.balance_of(1), 15);
}

#[test]
fn init_credit_is_overflow_checked() {
    let mut l = Ledger::new();
    assert_eq!(l.mint(1, u64::MAX), Ok(()));
    assert_eq!(l.init(1, 1), Err(Error::ArithmeticOverflow));
    assert!(!l.is_init());
    assert_eq!(l.balance_of(1), u64::MAX);
    assert_eq!(l.init(1, 0), Ok(()));
    assert!(l.is_init());
    assert_eq!(l.balance_of(1), u64::MAX);
}

#[test]
fn mint_is_overflow_checked() {
    let mut l = Ledger::new();
    assert_eq!(l.mint(3, u64::MAX - 1), Ok(()));
    assert_eq!(l.balance_of(3), u64::MAX - 1);
    assert_eq!(l.mint(3, 2), Err(Error::ArithmeticOverflow));
    assert_eq!(l.balance_of(3), u64::MAX - 1);
    assert_eq!(l.mint(3, 1), Ok(()));
    assert_eq!(l.balance_of(3), u64::MAX);
}

#[test]
fn lock_requires_strictly_more_balance_than_amount() {
    // Locking the full balance fails: the requirement is strict.
    let mut l = Ledger::new();
    assert_eq!(l.init(1, 100), Ok(()));
    assert_eq!(l.lock(1, 100), Err(Error::InsufficientBalance));
    assert_eq!(l.balance_of(1), 100);
    assert_eq!(l.locked_deposits(1), 0);
    assert_eq!(l.lock(1, 99), Ok(()));
    assert_eq!(l.balance_of(1), 1);
    assert_eq!(l.locked_deposits(1), 99);
}

#[test]
fn lock_without_record_fails() {
    let mut l = Ledger::new();
    assert_eq!(l.lock(9, 0), Err(Error::InsufficientBalance));
    assert_eq!(l.balance_of(9), 0);
}

#[test]
fn lock_then_unlock_restores_the_account() {
    let mut l = Ledger::new();
    assert_eq!(l.init(4, 250), Ok(()));
    assert_eq!(l.lock(4, 70), Ok(()));
    assert_eq!(l.balance_of(4), 180);
    assert_eq!(l.locked_deposits(4), 70);
    assert_eq!(l.unlock(4, 70), Ok(()));
    assert_eq!(l.balance_of(4), 250);
    assert_eq!(l.locked_deposits(4), 0);
}

#[test]
fn unlock_more_than_locked_underflows() {
    let mut l = Ledger::new();
    assert_eq!(l.init(4, 250), Ok(()));
    assert_eq!(l.lock(4, 70), Ok(()));
    assert_eq!(l.unlock(4, 71), Err(Error::ArithmeticUnderflow));
    assert_eq!(l.balance_of(4), 180);
    assert_eq!(l.locked_deposits(4), 70);
}

#[test]
fn unlock_overflow_is_checked_before_underflow() {
    let mut l = Ledger::new();
    assert_eq!(l.mint(5, u64::MAX), Ok(()));
    assert_eq!(l.unlock(5, 1), Err(Error::ArithmeticOverflow));
    assert_eq!(l.balance_of(5), u64::MAX);
}

#[test]
fn transfer_moves_exactly_the_amount() {
    let mut l = Ledger::new();
    assert_eq!(l.init(1, 300), Ok(()));
    assert_eq!(l.balance_transfer(1, 2, 120), Ok(()));
    assert_eq!(l.balance_of(1), 180);
    assert_eq!(l.balance_of(2), 120);
}

#[test]
fn transfer_needs_a_record_and_enough_balance() {
    let mut l = Ledger::new();
    assert_eq!(l.balance_transfer(1, 2, 0), Err(Error::InsufficientBalance));
    assert_eq!(l.init(1, 10), Ok(()));
    assert_eq!(l.balance_transfer(1, 2, 11), Err(Error::InsufficientBalance));
    assert_eq!(l.balance_of(1), 10);
    assert_eq!(l.balance_of(2), 0);
}

#[test]
fn transfer_to_self_keeps_the_balance() {
    let mut l = Ledger::new();
    assert_eq!(l.init(1, 55), Ok(()));
    assert_eq!(l.balance_transfer(1, 1, 40), Ok(()));
    assert_eq!(l.balance_of(1), 55);
}

#[test]
fn transfer_overflow_on_the_receiver_is_checked() {
    let mut l = Ledger::new();
    assert_eq!(l.init(1, 10), Ok(()));
    assert_eq!(l.mint(2, u64::MAX - 5), Ok(()));
    assert_eq!(l.balance_transfer(1, 2, 6), Err(Error::ArithmeticOverflow));
    assert_eq!(l.balance_of(1), 10);
    assert_eq!(l.balance_of(2), u64::MAX - 5);
}

use icarus_lending::error::LendingError;
use icarus_lending::shares::{calculate_deposit_amount, calculate_withdraw_amount};

#[test]
fn deposit_into_balanced_pool_is_one_for_one() {
    assert_eq!(calculate_deposit_amount(1000, 1000, 333), Ok(333));
    assert_eq!(calculate_withdraw_amount(1000, 1000, 333), Ok(333));
}

#[test]
fn deposit_after_yield_rounds_down() {
    assert_eq!(calculate_deposit_amount(333, 1000, 100), Ok(33));
    assert_eq!(calculate_withdraw_amount(333, 1000, 33), Ok(99));
}

#[test]
fn bootstrap_deposit_is_one_for_one() {
    assert_eq!(calculate_deposit_amount(0, 0, 500), Ok(500));
}

#[test]
fn conversion_overflow_is_reported() {
    assert_eq!(calculate_deposit_amount(u64::MAX, 1, 2), Err(LendingError::MathOverflow));
    assert_eq!(calculate_withdraw_amount(1, u64::MAX, 2), Err(LendingError::MathOverflow));
}

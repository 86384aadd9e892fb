use icarus_lending::loan::{
    LoanType, LATE_FEE, LONG_LOAN_DURATION, LONG_MAX_RATIO, MEDIUM_LOAN_DURATION,
    MEDIUM_MAX_RATIO, SHORT_LOAN_DURATION, SHORT_MAX_RATIO,
};
use icarus_lending::{AccountKey, InitObligationPositionParams, LendingError, ObligationPosition};

fn position(loan_type: LoanType, deposited: u64, borrowed: u64) -> ObligationPosition {
    ObligationPosition::new(InitObligationPositionParams {
        vote_account: AccountKey::new_from_array([7u8; 32]),
        loan_type,
        deposited_amount: deposited,
        weighted_deposited_amount: deposited,
        borrowed_amount: borrowed,
    })
}

#[test]
fn loan_classes_have_their_table() {
    assert_eq!(SHORT_MAX_RATIO, 50);
    assert_eq!(SHORT_LOAN_DURATION, 15);
    assert_eq!(MEDIUM_LOAN_DURATION, 45);
    assert_eq!(LONG_LOAN_DURATION, 90);
    assert_eq!(LoanType::SHORT(3).max_ratio(), SHORT_MAX_RATIO);
    assert_eq!(LoanType::MEDIUM(3).max_ratio(), MEDIUM_MAX_RATIO);
    assert_eq!(LoanType::LONG(3).max_ratio(), LONG_MAX_RATIO);
    assert_eq!(LoanType::SHORT(3).duration(), 15);
    assert_eq!(LoanType::MEDIUM(3).duration(), 45);
    assert_eq!(LoanType::LONG(3).duration(), 90);
    assert_eq!(LoanType::SHORT(3).epoch(), 3);
    assert_eq!(LoanType::MEDIUM(4).epoch(), 4);
    assert_eq!(LoanType::LONG(5).epoch(), 5);
    assert_eq!(LoanType::default(), LoanType::SHORT(0));
}

#[test]
fn loan_codes() {
    assert_eq!(LoanType::from_code(0, 9), Ok(LoanType::SHORT(9)));
    assert_eq!(LoanType::from_code(1, 9), Ok(LoanType::MEDIUM(9)));
    assert_eq!(LoanType::from_code(2, 9), Ok(LoanType::LONG(9)));
    assert_eq!(LoanType::from_code(3, 9), Err(LendingError::InvalidLoanType));
    assert_eq!(LoanType::from_code(255, 9), Err(LendingError::InvalidLoanType));
}

#[test]
fn borrow_up_to_the_limit_and_not_beyond() {
    let mut p = position(LoanType::SHORT(0), 1000, 0);
    assert_eq!(p.borrow(500), Ok(()));
    assert_eq!(p.borrowed_amount, 500);
    assert_eq!(p.borrow(1), Err(LendingError::LoanToValueTooHigh));
    assert_eq!(p.borrowed_amount, 500);
    assert_eq!(p.deposited_amount, 1000);
}

#[test]
fn borrow_without_collateral_is_an_arithmetic_fault() {
    let mut p = position(LoanType::SHORT(0), 0, 0);
    assert_eq!(p.borrow(0), Err(LendingError::MathOverflow));
    let mut q = position(LoanType::SHORT(0), 1000, u64::MAX);
    assert_eq!(q.borrow(1), Err(LendingError::MathOverflow));
    let mut r = position(LoanType::SHORT(0), u64::MAX, 0);
    assert_eq!(r.borrow(u64::MAX / 100 + 1), Err(LendingError::MathOverflow));
    assert_eq!(r.borrow(u64::MAX / 100), Ok(()));
}

#[test]
fn check_ltv_by_class() {
    let medium = position(LoanType::MEDIUM(0), 1000, 0);
    assert_eq!(medium.check_ltv(MEDIUM_MAX_RATIO * 10, 1000), Ok(()));
    assert_eq!(medium.check_ltv(MEDIUM_MAX_RATIO * 10 + 1, 1000), Err(LendingError::LoanToValueTooHigh));
    let long = position(LoanType::LONG(0), 1000, 0);
    assert_eq!(long.check_ltv(LONG_MAX_RATIO * 10, 1000), Ok(()));
    assert_eq!(long.check_ltv(LONG_MAX_RATIO * 10 + 1, 1000), Err(LendingError::LoanToValueTooHigh));
    assert_eq!(long.check_ltv(0, 0), Err(LendingError::MathOverflow));
}

#[test]
fn deposit_adds_both_amounts() {
    let mut p = position(LoanType::SHORT(0), 1000, 100);
    assert_eq!(p.deposit(200, 150), Ok(()));
    assert_eq!(p.deposited_amount, 1200);
    assert_eq!(p.weighted_deposited_amount, 1150);
    assert_eq!(p.borrowed_amount, 100);
    assert_eq!(p.deposit(u64::MAX, 0), Err(LendingError::MathOverflow));
    assert_eq!(p.deposit(0, u64::MAX), Err(LendingError::MathOverflow));
    assert_eq!(p.deposited_amount, 1200);
    assert_eq!(p.weighted_deposited_amount, 1150);
}

#[test]
fn withdraw_checks_before_it_commits() {
    let mut p = position(LoanType::SHORT(0), 1000, 400);
    assert_eq!(p.withdraw(1001, 0), Err(LendingError::InsufficientCollateral));
    assert_eq!(p.withdraw(201, 201), Err(LendingError::LoanToValueTooHigh));
    assert_eq!(p.withdraw(100, 1001), Err(LendingError::MathOverflow));
    assert_eq!(p.deposited_amount, 1000);
    assert_eq!(p.weighted_deposited_amount, 1000);
    assert_eq!(p.withdraw(200, 190), Ok(()));
    assert_eq!(p.deposited_amount, 800);
    assert_eq!(p.weighted_deposited_amount, 810);
    assert_eq!(p.borrowed_amount, 400);
}

#[test]
fn withdraw_of_everything_has_no_ratio() {
    let mut p = position(LoanType::SHORT(0), 1000, 0);
    assert_eq!(p.withdraw(1000, 1000), Err(LendingError::MathOverflow));
    assert_eq!(p.deposited_amount, 1000);
}

#[test]
fn no_late_fee_within_the_duration() {
    let p = position(LoanType::SHORT(10), 1000, 500);
    assert_eq!(p.get_deposit_status(0), Ok((false, 1000)));
    assert_eq!(p.get_deposit_status(10), Ok((false, 1000)));
    assert_eq!(p.get_deposit_status(25), Ok((false, 1000)));
    let under = position(LoanType::SHORT(10), 1000, 1001);
    assert_eq!(under.get_deposit_status(25), Ok((true, 1001)));
}

#[test]
fn late_fee_decays_the_deposit() {
    let p = position(LoanType::SHORT(10), 1000, 500);
    assert_eq!(p.get_deposit_status(26), Ok((false, 1000 * (100 - LATE_FEE) / 100)));
    let mut last = 1000;
    let mut epoch = 25;
    while epoch < 25 + 100 / LATE_FEE + 5 {
        let (liquidatable, amount) = p.get_deposit_status(epoch).unwrap();
        let left = if liquidatable { 500 } else { amount };
        assert!(left <= last);
        if !liquidatable {
            last = amount;
        }
        epoch += 1;
    }
    assert_eq!(p.get_deposit_status(25 + 100 / LATE_FEE), Ok((true, 500)));
    assert_eq!(p.get_deposit_status(u64::MAX), Ok((true, 500)));
    let free = position(LoanType::SHORT(10), 1000, 0);
    assert_eq!(free.get_deposit_status(u64::MAX), Ok((false, 0)));
}

#[test]
fn late_fee_by_class() {
    let medium = position(LoanType::MEDIUM(0), 1000, 0);
    assert_eq!(medium.get_deposit_status(45), Ok((false, 1000)));
    assert_eq!(medium.get_deposit_status(46), Ok((false, 1000 - 10 * LATE_FEE)));
    let long = position(LoanType::LONG(0), 1000, 0);
    assert_eq!(long.get_deposit_status(90), Ok((false, 1000)));
    assert_eq!(long.get_deposit_status(92), Ok((false, 1000 - 20 * LATE_FEE)));
}

#[test]
fn late_fee_on_a_large_deposit_is_exact() {
    let p = position(LoanType::SHORT(0), u64::MAX, 0);
    let expected = ((u64::MAX as u128) * ((100 - LATE_FEE) as u128) / 100) as u64;
    assert_eq!(p.get_deposit_status(16), Ok((false, expected)));
}

#[test]
fn ltv_to_max_ratio_rounds_down() {
    assert_eq!(position(LoanType::SHORT(0), 1000, 500).get_ltv_to_max_ratio(), Ok(1));
    assert_eq!(position(LoanType::SHORT(0), 1000, 499).get_ltv_to_max_ratio(), Ok(0));
    assert_eq!(position(LoanType::SHORT(0), 10, 1000).get_ltv_to_max_ratio(), Ok(200));
    assert_eq!(
        position(LoanType::LONG(0), 1000, 1000).get_ltv_to_max_ratio(),
        Ok(100 * 1000 / (1000 * LONG_MAX_RATIO))
    );
    assert_eq!(position(LoanType::SHORT(0), 0, 5).get_ltv_to_max_ratio(), Err(LendingError::MathOverflow));
    assert_eq!(
        position(LoanType::SHORT(0), 1, u64::MAX).get_ltv_to_max_ratio(),
        Err(LendingError::MathOverflow)
    );
    assert_eq!(position(LoanType::SHORT(0), 2, u64::MAX).get_ltv_to_max_ratio(), Ok(u64::MAX));
}

use icarus_lending::actions::{
    calculate_fee, deposit_reserve_liquidity, redeem_reserve_liquidity, require_fresh,
    set_lending_market_owner,
};
use icarus_lending::borrowing::{borrow_against_stake, borrow_obligation_liquidity};
use icarus_lending::settlement::{
    liquidate_position, liquidate_positions, repay_against_stake, repay_obligation_liquidity,
    repayment_terms,
};
use icarus_lending::stake::{Delegation, Meta, Stake, StakeState};
use icarus_lending::{
    AccountKey, BorrowLiquidityArgs, BorrowPlan, DepositLiquidityArgs, InitLendingMarketParams,
    InitObligationParams, InitObligationPositionParams, InitReserveParams, LendingError,
    LendingMarket, LoanType, NewReserveCollateralParams, NewReserveLiquidityParams, Obligation,
    ObligationPosition, RedeemLiquidityArgs, RepayPlan, Reserve, ReserveCollateral,
    ReserveLiquidity, SetLendingMarketOwnerArgs,
};
use anchor_lang::AnchorSerialize;
use solana_program::pubkey::Pubkey;
use solana_program::stake::stake_flags::StakeFlags;
use solana_program::stake::state::StakeStateV2;

fn key(byte: u8) -> AccountKey {
    AccountKey::new_from_array([byte; 32])
}

fn reserve_for(vote: u8) -> Reserve {
    let mut reserve = Reserve::new(InitReserveParams {
        current_epoch: 7,
        current_slot: 100,
        lending_market: key(1),
        vote_account: key(vote),
        liquidity: ReserveLiquidity::new(NewReserveLiquidityParams { mint_pubkey: key(3), vault_pubkey: key(4) }),
        collateral: ReserveCollateral::new(NewReserveCollateralParams { mint_pubkey: key(5), stake_account: key(6) }),
        bump: 0,
        stake_bump: 0,
        vault_bump: 0,
    });
    reserve.refresh_reserve(100);
    reserve
}

fn obligation() -> Obligation {
    Obligation::new(InitObligationParams { lending_market: key(1), owner: key(9), bump: 0 })
}

fn delegated(stake: u64) -> Option<StakeState> {
    Some(StakeState::Stake(
        Meta { rent_exempt_reserve: 2_282_880 },
        Stake {
            delegation: Delegation { stake, activation_epoch: 0, deactivation_epoch: u64::MAX },
            credits_observed: 0,
        },
    ))
}

fn ledger_bytes(stake: u64) -> Vec<u8> {
    StakeStateV2::Stake(
        solana_program::stake::state::Meta {
            rent_exempt_reserve: 2_282_880,
            authorized: solana_program::stake::state::Authorized::auto(&Pubkey::new_from_array([1u8; 32])),
            lockup: solana_program::stake::state::Lockup::default(),
        },
        solana_program::stake::state::Stake {
            delegation: solana_program::stake::state::Delegation::new(&Pubkey::new_from_array([2u8; 32]), stake, 0),
            credits_observed: 0,
        },
        StakeFlags::empty(),
    )
    .try_to_vec()
    .unwrap()
}

fn short_borrow(collateral: u64, borrowed: u64) -> BorrowLiquidityArgs {
    BorrowLiquidityArgs { loan_type: 0, collateral_amount: collateral, borrowed_amount: borrowed }
}

fn position(vote: u8, deposited: u64, borrowed: u64) -> InitObligationPositionParams {
    InitObligationPositionParams {
        vote_account: key(vote),
        loan_type: LoanType::SHORT(7),
        deposited_amount: deposited,
        weighted_deposited_amount: deposited,
        borrowed_amount: borrowed,
    }
}

fn funded_reserve(vote: u8, collateral: u64) -> Reserve {
    let mut reserve = reserve_for(vote);
    reserve.collateral.collateral_amount = collateral;
    reserve.collateral.mint_total_supply = collateral;
    reserve
}

#[test]
fn deposit_needs_a_fresh_reserve_and_leaves_it_stale() {
    let mut r = reserve_for(2);
    assert_eq!(require_fresh(&r, 100), Ok(()));
    assert_eq!(require_fresh(&r, 101), Err(LendingError::ReserveStale));
    assert_eq!(require_fresh(&r, 99), Err(LendingError::MathOverflow));
    assert_eq!(deposit_reserve_liquidity(&mut r, 100, DepositLiquidityArgs { liquidity_amount: 500 }), Ok(500));
    assert_eq!(r.liquidity.available_amount, 500);
    assert_eq!(r.liquidity.mint_total_supply, 500);
    assert!(r.last_update.stale);
    assert_eq!(
        deposit_reserve_liquidity(&mut r, 100, DepositLiquidityArgs { liquidity_amount: 1 }),
        Err(LendingError::ReserveStale)
    );
    assert_eq!(r.liquidity.available_amount, 500);
    r.refresh_reserve(101);
    assert_eq!(
        deposit_reserve_liquidity(&mut r, 101, DepositLiquidityArgs { liquidity_amount: u64::MAX }),
        Err(LendingError::MathOverflow)
    );
    assert!(!r.last_update.stale);
    assert_eq!(r.liquidity.available_amount, 500);
}

#[test]
fn redeem_checks_the_amount_first() {
    let mut r = reserve_for(2);
    r.last_update.mark_stale();
    assert_eq!(
        redeem_reserve_liquidity(&mut r, 100, RedeemLiquidityArgs { token_amount: 0 }),
        Err(LendingError::InvalidAmount)
    );
    assert_eq!(
        redeem_reserve_liquidity(&mut r, 100, RedeemLiquidityArgs { token_amount: 1 }),
        Err(LendingError::ReserveStale)
    );
    r.refresh_reserve(100);
    r.liquidity.available_amount = 1000;
    r.liquidity.mint_total_supply = 333;
    assert_eq!(redeem_reserve_liquidity(&mut r, 100, RedeemLiquidityArgs { token_amount: 33 }), Ok(99));
    assert_eq!(r.liquidity.available_amount, 901);
    assert_eq!(r.liquidity.mint_total_supply, 300);
    assert!(r.last_update.stale);
    r.refresh_reserve(100);
    assert_eq!(
        redeem_reserve_liquidity(&mut r, 100, RedeemLiquidityArgs { token_amount: 301 }),
        Err(LendingError::InsufficientLiquidity)
    );
    assert!(!r.last_update.stale);
}

#[test]
fn fee_is_a_skim_of_the_yield_plus_the_late_shortfall() {
    assert_eq!(calculate_fee(1100, 1000, 1000, 50), Ok(50));
    assert_eq!(calculate_fee(1100, 1000, 990, 50), Ok(60));
    assert_eq!(calculate_fee(1000, 1000, 0, 100), Ok(1000));
    assert_eq!(calculate_fee(1199, 1000, 1000, 1), Ok(1));
    assert_eq!(calculate_fee(999, 1000, 1000, 50), Err(LendingError::MathOverflow));
    assert_eq!(calculate_fee(1100, 1000, 1001, 50), Err(LendingError::MathOverflow));
    assert_eq!(calculate_fee(u64::MAX, 0, 0, 101), Err(LendingError::MathOverflow));
    assert_eq!(calculate_fee(u64::MAX, 0, 0, 100), Ok(u64::MAX));
    assert_eq!(calculate_fee(u64::MAX, 1, 0, 100), Ok(u64::MAX));
    assert_eq!(calculate_fee(u64::MAX, 2, 0, 100), Ok(u64::MAX));
    assert_eq!(calculate_fee(u64::MAX, u64::MAX / 50, 0, 101), Err(LendingError::MathOverflow));
}

#[test]
fn borrow_with_the_whole_stake() {
    let mut o = obligation();
    let mut r = reserve_for(2);
    let plan = borrow_against_stake(&mut o, &mut r, short_borrow(1000, 500), 100, 7, delegated(1000), 0);
    assert_eq!(plan, Ok(BorrowPlan { weighted_deposited_amount: 1000, split_amount: None }));
    assert_eq!(o.positions.len(), 1);
    assert_eq!(o.positions[0].vote_account, key(2));
    assert_eq!(o.positions[0].loan_type, LoanType::SHORT(7));
    assert_eq!(o.positions[0].deposited_amount, 1000);
    assert_eq!(o.positions[0].weighted_deposited_amount, 1000);
    assert_eq!(o.positions[0].borrowed_amount, 500);
    assert_eq!(r.collateral.collateral_amount, 1000);
    assert_eq!(r.collateral.mint_total_supply, 1000);
    assert!(r.last_update.stale);
}

#[test]
fn borrow_with_part_of_the_stake_splits_the_rest() {
    let mut o = obligation();
    let mut r = funded_reserve(2, 1000);
    r.collateral.collateral_amount = 1100;
    let plan = borrow_against_stake(&mut o, &mut r, short_borrow(110, 50), 100, 7, delegated(1500), 1);
    assert_eq!(plan, Ok(BorrowPlan { weighted_deposited_amount: 100, split_amount: Some(1390) }));
    assert_eq!(o.positions[0].weighted_deposited_amount, 100);
    assert_eq!(r.collateral.collateral_amount, 1210);
    assert_eq!(r.collateral.mint_total_supply, 1100);
}

#[test]
fn borrow_failures_change_nothing() {
    let mut o = obligation();
    let mut r = reserve_for(2);
    let bad_code = BorrowLiquidityArgs { loan_type: 3, collateral_amount: 1000, borrowed_amount: 500 };
    assert_eq!(borrow_against_stake(&mut o, &mut r, bad_code, 100, 7, delegated(1000), 0), Err(LendingError::InvalidLoanType));
    assert_eq!(
        borrow_against_stake(&mut o, &mut r, short_borrow(1000, 500), 101, 7, delegated(1000), 0),
        Err(LendingError::ReserveStale)
    );
    assert_eq!(
        borrow_against_stake(&mut o, &mut r, short_borrow(1000, 500), 100, 7, None, 0),
        Err(LendingError::InvalidAccountData)
    );
    assert_eq!(
        borrow_against_stake(&mut o, &mut r, short_borrow(1000, 500), 100, 7, Some(StakeState::Uninitialized), 0),
        Err(LendingError::WrongStakeStake)
    );
    assert_eq!(
        borrow_against_stake(&mut o, &mut r, short_borrow(1000, 500), 100, 7, delegated(999), 1),
        Err(LendingError::InsufficientCollateral)
    );
    assert_eq!(
        borrow_against_stake(&mut o, &mut r, short_borrow(1000, 500), 100, 7, delegated(1001), 0),
        Err(LendingError::WrongRemainingAccountSchema)
    );
    assert_eq!(
        borrow_against_stake(&mut o, &mut r, short_borrow(1000, 500), 100, 7, delegated(1001), 2),
        Err(LendingError::WrongRemainingAccountSchema)
    );
    assert!(o.positions.is_empty());
    assert_eq!(r.collateral.collateral_amount, 0);
    assert_eq!(r.collateral.mint_total_supply, 0);
    assert!(!r.last_update.stale);
}

#[test]
fn first_borrow_must_keep_the_limit() {
    let mut o = obligation();
    let mut r = reserve_for(2);
    assert_eq!(
        borrow_against_stake(&mut o, &mut r, short_borrow(1000, 600), 100, 7, delegated(1000), 0),
        Err(LendingError::LoanToValueTooHigh)
    );
    assert_eq!(
        borrow_against_stake(&mut o, &mut r, short_borrow(0, 0), 100, 7, delegated(0), 0),
        Err(LendingError::MathOverflow)
    );
    assert!(o.positions.is_empty());
    assert_eq!(r.collateral.collateral_amount, 0);
    assert_eq!(r.collateral.mint_total_supply, 0);
    assert!(!r.last_update.stale);
}

#[test]
fn second_borrow_must_keep_the_loan_type_and_the_limit() {
    let mut o = obligation();
    let mut r = reserve_for(2);
    borrow_against_stake(&mut o, &mut r, short_borrow(1000, 500), 100, 7, delegated(1000), 0).unwrap();
    r.refresh_reserve(100);
    assert_eq!(
        borrow_against_stake(&mut o, &mut r, short_borrow(1000, 0), 100, 8, delegated(1000), 0),
        Err(LendingError::LoanTypeMismatch)
    );
    let medium = BorrowLiquidityArgs { loan_type: 1, collateral_amount: 1000, borrowed_amount: 0 };
    assert_eq!(borrow_against_stake(&mut o, &mut r, medium, 100, 7, delegated(1000), 0), Err(LendingError::LoanTypeMismatch));
    assert_eq!(
        borrow_against_stake(&mut o, &mut r, short_borrow(0, 1), 100, 7, delegated(0), 0),
        Err(LendingError::LoanToValueTooHigh)
    );
    assert_eq!(o.positions[0].deposited_amount, 1000);
    assert_eq!(r.collateral.collateral_amount, 1000);
    assert!(!r.last_update.stale);
    assert_eq!(
        borrow_against_stake(&mut o, &mut r, short_borrow(1000, 500), 100, 7, delegated(1000), 0),
        Ok(BorrowPlan { weighted_deposited_amount: 1000, split_amount: None })
    );
    assert_eq!(o.positions.len(), 1);
    assert_eq!(o.positions[0].deposited_amount, 2000);
    assert_eq!(o.positions[0].borrowed_amount, 1000);
}

#[test]
fn borrow_from_account_bytes() {
    let mut o = obligation();
    let mut r = reserve_for(2);
    let bytes = ledger_bytes(1500);
    assert_eq!(
        borrow_obligation_liquidity(&mut o, &mut r, short_borrow(1000, 500), 100, 7, &bytes, 1),
        Ok(BorrowPlan { weighted_deposited_amount: 1000, split_amount: Some(500) })
    );
    let mut p = obligation();
    let mut s = reserve_for(2);
    assert_eq!(
        borrow_obligation_liquidity(&mut p, &mut s, short_borrow(1000, 500), 100, 7, &[9, 9], 1),
        Err(LendingError::InvalidAccountData)
    );
    assert!(p.positions.is_empty());
}

#[test]
fn repayment_in_good_standing() {
    let mut o = obligation();
    o.add_or_create_position(position(2, 1000, 500)).unwrap();
    let mut r = funded_reserve(2, 1000);
    let plan = repay_against_stake(&mut o, &mut r, 100, 7, delegated(1100), 1);
    assert_eq!(plan, Ok(RepayPlan { liquidated: false, fee_to_collect: 1, split_amount: Some(1099) }));
    assert!(o.positions.is_empty());
    assert_eq!(r.collateral.collateral_amount, 0);
    assert_eq!(r.collateral.collateral_amount_to_claim, 1);
    assert_eq!(r.collateral.mint_total_supply, 0);
    assert!(r.last_update.stale);
}

#[test]
fn late_repayment_pays_the_shortfall() {
    let mut o = obligation();
    o.add_or_create_position(position(2, 1000, 100)).unwrap();
    let mut r = funded_reserve(2, 1000);
    let plan = repay_against_stake(&mut o, &mut r, 100, 7 + 15 + 10, delegated(1100), 1);
    let late_fee = 10 * icarus_lending::loan::LATE_FEE * 10;
    assert_eq!(plan, Ok(RepayPlan { liquidated: false, fee_to_collect: late_fee, split_amount: Some(1100 - late_fee) }));
    assert_eq!(r.collateral.collateral_amount_to_claim, late_fee);
}

#[test]
fn repayment_of_a_liquidatable_position_keeps_the_deposit() {
    let mut o = obligation();
    o.add_or_create_position(position(2, 1000, 500)).unwrap();
    let mut r = funded_reserve(2, 1500);
    let plan = repay_against_stake(&mut o, &mut r, 100, u64::MAX, None, 0);
    assert_eq!(plan, Ok(RepayPlan { liquidated: true, fee_to_collect: 1000, split_amount: None }));
    assert!(o.positions.is_empty());
    assert_eq!(r.collateral.collateral_amount, 500);
    assert_eq!(r.collateral.collateral_amount_to_claim, 1000);
    assert_eq!(r.collateral.mint_total_supply, 500);
    assert!(r.last_update.stale);
}

#[test]
fn repayment_failures_change_nothing() {
    let mut o = obligation();
    o.add_or_create_position(position(2, 1000, 500)).unwrap();
    let mut r = funded_reserve(2, 1000);
    assert_eq!(repay_against_stake(&mut o, &mut r, 101, 7, delegated(1100), 1), Err(LendingError::ReserveStale));
    assert_eq!(repay_against_stake(&mut o, &mut r, 100, 7, delegated(1100), 0), Err(LendingError::WrongRemainingAccountSchema));
    assert_eq!(repay_against_stake(&mut o, &mut r, 100, 7, delegated(999), 1), Err(LendingError::MathOverflow));
    assert_eq!(repay_against_stake(&mut o, &mut r, 100, 7, None, 1), Err(LendingError::InvalidAccountData));
    assert_eq!(
        repay_against_stake(&mut o, &mut r, 100, 7, Some(StakeState::RewardsPool), 1),
        Err(LendingError::WrongStakeStake)
    );
    let mut other = funded_reserve(3, 1000);
    assert_eq!(
        repay_against_stake(&mut o, &mut other, 100, 7, delegated(1100), 1),
        Err(LendingError::InvalidObligationPositionIndex)
    );
    let mut short_of_collateral = funded_reserve(2, 999);
    assert_eq!(
        repay_against_stake(&mut o, &mut short_of_collateral, 100, 7, delegated(1100), 1),
        Err(LendingError::InsufficientLiquidity)
    );
    assert_eq!(o.positions.len(), 1);
    assert_eq!(r.collateral.collateral_amount, 1000);
    assert_eq!(r.collateral.collateral_amount_to_claim, 0);
    assert!(!r.last_update.stale);
}

#[test]
fn repayment_from_account_bytes() {
    let mut o = obligation();
    o.add_or_create_position(position(2, 1000, 500)).unwrap();
    let mut r = funded_reserve(2, 1000);
    let bytes = ledger_bytes(1200);
    assert_eq!(
        repay_obligation_liquidity(&mut o, &mut r, 100, 7, &bytes, 1),
        Ok(RepayPlan { liquidated: false, fee_to_collect: 2, split_amount: Some(1198) })
    );
}

#[test]
fn repayment_terms_value_the_weight() {
    let p = ObligationPosition::new(position(2, 1000, 500));
    let r = funded_reserve(2, 2000);
    assert_eq!(repayment_terms(p, r, 7, 2400), Ok((1200, 2)));
    assert_eq!(repayment_terms(p, r, 7, 1999), Err(LendingError::MathOverflow));
    let empty = ObligationPosition::new(position(2, 0, 0));
    assert_eq!(repayment_terms(empty, r, 7, 2400), Err(LendingError::MathOverflow));
}

#[test]
fn liquidation_needs_a_liquidatable_position() {
    let mut o = obligation();
    o.add_or_create_position(position(2, 1000, 500)).unwrap();
    let mut r = funded_reserve(2, 1000);
    assert_eq!(liquidate_position(&mut o, &mut r, 7), Err(LendingError::NotLiquidatable));
    assert_eq!(o.positions.len(), 1);
    assert_eq!(r.collateral.collateral_amount, 1000);
    let late = 7 + 15 + 100 / icarus_lending::loan::LATE_FEE;
    assert_eq!(liquidate_position(&mut o, &mut r, late), Ok(()));
    assert!(o.positions.is_empty());
    assert_eq!(r.collateral.collateral_amount, 0);
    assert_eq!(r.collateral.collateral_amount_to_claim, 1000);
    assert_eq!(r.collateral.mint_total_supply, 0);
    assert!(r.last_update.stale);
    assert_eq!(liquidate_position(&mut o, &mut r, late), Err(LendingError::ObligationPositionEmpty));
    o.add_or_create_position(position(3, 1000, 500)).unwrap();
    assert_eq!(liquidate_position(&mut o, &mut r, late), Err(LendingError::InvalidObligationPositionIndex));
}

#[test]
fn liquidation_of_all_positions_is_all_or_nothing() {
    let late = u64::MAX;
    let mut o = obligation();
    o.add_or_create_position(position(2, 1000, 500)).unwrap();
    o.add_or_create_position(position(3, 2000, 0)).unwrap();
    let mut too_few = vec![Some(funded_reserve(2, 1000))];
    assert_eq!(liquidate_positions(&mut o, &mut too_few, late), Err(LendingError::WrongRemainingAccountSchema));
    let mut unreadable = vec![Some(funded_reserve(2, 1000)), None];
    assert_eq!(liquidate_positions(&mut o, &mut unreadable, late), Err(LendingError::InvalidReserveAccount));
    assert_eq!(unreadable[0].unwrap().collateral.collateral_amount, 1000);
    let mut second_healthy = vec![Some(funded_reserve(2, 1000)), Some(funded_reserve(3, 2000))];
    assert_eq!(liquidate_positions(&mut o, &mut second_healthy, late), Err(LendingError::NotLiquidatable));
    assert_eq!(o.positions.len(), 2);
    assert_eq!(second_healthy[0].unwrap().collateral.collateral_amount, 1000);
    assert!(!second_healthy[0].unwrap().last_update.stale);

    let mut p = obligation();
    p.add_or_create_position(position(2, 1000, 500)).unwrap();
    p.add_or_create_position(position(3, 2000, 1)).unwrap();
    let mut both = vec![Some(funded_reserve(3, 2000)), Some(funded_reserve(2, 1000))];
    assert_eq!(liquidate_positions(&mut p, &mut both, late), Ok(()));
    assert!(p.positions.is_empty());
    assert_eq!(both[0].unwrap().collateral.collateral_amount_to_claim, 2000);
    assert_eq!(both[1].unwrap().collateral.collateral_amount_to_claim, 1000);
    assert!(both[0].unwrap().last_update.stale);
    let mut none: Vec<Option<Reserve>> = Vec::new();
    assert_eq!(liquidate_positions(&mut p, &mut none, late), Ok(()));
}

#[test]
fn owner_of_a_market_changes() {
    let mut market = LendingMarket::new(InitLendingMarketParams { owner: key(1), bump: 2, authority_bump: 3 });
    set_lending_market_owner(&mut market, SetLendingMarketOwnerArgs { new_owner: key(8) });
    assert_eq!(market.owner, key(8));
    assert_eq!((market.bump, market.authority_bump), (2, 3));
}

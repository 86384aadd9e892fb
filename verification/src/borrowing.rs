//! Borrowing against a stake account that becomes collateral of a reserve.

use vstd::prelude::*;
use crate::actions::{marked_stale, require_fresh, spec_require_fresh};
use crate::error::{transacts, LendingError};
use crate::loan::LoanType;
use crate::obligation::{Obligation, ObligationView};
use crate::position::InitObligationPositionParams;
use crate::reserve::Reserve;
use crate::stake::{
    decoded_stake_amount,
    decoded_stake_state,
    decode_stake_state,
    spec_decoded_stake_amount,
    StakeState,
};

verus! {

/// Arguments of a borrow.
#[derive(Clone, Copy, Debug)]
pub struct BorrowLiquidityArgs {
    /// Loan class: 0 short, 1 medium, 2 long.
    pub loan_type: u8,
    /// Stake to deposit as collateral.
    pub collateral_amount: u64,
    /// Liquidity to borrow.
    pub borrowed_amount: u64,
}

/// What a borrow asks the caller to do with the borrower's stake account.
#[derive(Clone, Copy, Debug, PartialEq, Eq, Structural)]
pub struct BorrowPlan {
    /// Shares of the collateral pool that weigh the deposit.
    pub weighted_deposited_amount: u64,
    /// Stake to split off into an account of the borrower's before the rest
    /// is merged into the reserve's stake; `None` where all of it is merged.
    pub split_amount: Option<u64>,
}

/// The obligation and the reserve after a borrow, and what is to be done
/// with the borrower's stake account, which holds `stake`.
///
/// The reserve must be fresh; the collateral is weighed by the collateral
/// pool; the position against the reserve's vote account takes the deposit
/// and the debt; the stake account must delegate at least the collateral,
/// and where it delegates more, exactly one account must be at hand to take
/// the rest. At the end the reserve is stale.
pub open spec fn spec_borrow_against_stake(
    obligation: ObligationView,
    reserve: Reserve,
    args: BorrowLiquidityArgs,
    current_slot: u64,
    current_epoch: u64,
    stake: Option<StakeState>,
    remaining_accounts: usize,
) -> Result<((ObligationView, Reserve), BorrowPlan), LendingError> {
    match LoanType::spec_from_code(args.loan_type, current_epoch) {
        Err(e) => Err(e),
        Ok(loan_type) => match spec_require_fresh(&reserve, current_slot) {
            Err(e) => Err(e),
            Ok(_) => match reserve.collateral_deposited(args.collateral_amount) {
                Err(e) => Err(e),
                Ok((funded, weighted)) => match obligation.add_or_create_position(
                    InitObligationPositionParams {
                        vote_account: reserve.vote_account,
                        loan_type,
                        deposited_amount: args.collateral_amount,
                        weighted_deposited_amount: weighted,
                        borrowed_amount: args.borrowed_amount,
                    },
                ) {
                    Err(e) => Err(e),
                    Ok((opened, _)) => match spec_decoded_stake_amount(stake) {
                        Err(e) => Err(e),
                        Ok(stake_amount) => if stake_amount < args.collateral_amount {
                            Err(LendingError::InsufficientCollateral)
                        } else if stake_amount == args.collateral_amount {
                            Ok(
                                (
                                    (opened, marked_stale(funded)),
                                    BorrowPlan {
                                        weighted_deposited_amount: weighted,
                                        split_amount: None,
                                    },
                                ),
                            )
                        } else if remaining_accounts != 1 {
                            Err(LendingError::WrongRemainingAccountSchema)
                        } else {
                            Ok(
                                (
                                    (opened, marked_stale(funded)),
                                    BorrowPlan {
                                        weighted_deposited_amount: weighted,
                                        split_amount: Some(
                                            (stake_amount - args.collateral_amount) as u64,
                                        ),
                                    },
                                ),
                            )
                        },
                    },
                },
            },
        },
    }
}

/// Borrows against a stake account whose decoded state is `stake`.
pub fn borrow_against_stake(
    obligation: &mut Obligation,
    reserve: &mut Reserve,
    args: BorrowLiquidityArgs,
    current_slot: u64,
    current_epoch: u64,
    stake: Option<StakeState>,
    remaining_accounts: usize,
) -> (plan: Result<BorrowPlan, LendingError>)
    ensures
        transacts(
            (old(obligation)@, *old(reserve)),
            (final(obligation)@, *final(reserve)),
            plan,
            spec_borrow_against_stake(
                old(obligation)@,
                *old(reserve),
                args,
                current_slot,
                current_epoch,
                stake,
                remaining_accounts,
            ),
        ),
{
    let loan_type = match LoanType::from_code(args.loan_type, current_epoch) {
        Ok(loan_type) => loan_type,
        Err(e) => { return Err(e); },
    };
    match require_fresh(reserve, current_slot) {
        Ok(_) => {},
        Err(e) => { return Err(e); },
    }
    let mut funded: Reserve = *reserve;
    let weighted = match funded.deposit_collateral(args.collateral_amount) {
        Ok(weighted) => weighted,
        Err(e) => { return Err(e); },
    };
    let params = InitObligationPositionParams {
        vote_account: reserve.vote_account,
        loan_type,
        deposited_amount: args.collateral_amount,
        weighted_deposited_amount: weighted,
        borrowed_amount: args.borrowed_amount,
    };
    let (at, position) = match obligation.plan_position(params) {
        Ok(planned) => planned,
        Err(e) => { return Err(e); },
    };
    let stake_amount = match decoded_stake_amount(stake) {
        Ok(amount) => amount,
        Err(e) => { return Err(e); },
    };
    if stake_amount < args.collateral_amount {
        return Err(LendingError::InsufficientCollateral);
    }
    let split_amount = if stake_amount == args.collateral_amount {
        None
    } else {
        if remaining_accounts != 1 {
            return Err(LendingError::WrongRemainingAccountSchema);
        }
        Some(stake_amount - args.collateral_amount)
    };
    obligation.store_position(at, position);
    funded.last_update.mark_stale();
    *reserve = funded;
    Ok(BorrowPlan { weighted_deposited_amount: weighted, split_amount })
}

/// Borrows against the stake account whose bytes are `stake_account_data`.
pub fn borrow_obligation_liquidity(
    obligation: &mut Obligation,
    reserve: &mut Reserve,
    args: BorrowLiquidityArgs,
    current_slot: u64,
    current_epoch: u64,
    stake_account_data: &[u8],
    remaining_accounts: usize,
) -> (plan: Result<BorrowPlan, LendingError>)
    ensures
        transacts(
            (old(obligation)@, *old(reserve)),
            (final(obligation)@, *final(reserve)),
            plan,
            spec_borrow_against_stake(
                old(obligation)@,
                *old(reserve),
                args,
                current_slot,
                current_epoch,
                decoded_stake_state(stake_account_data@),
                remaining_accounts,
            ),
        ),
{
    let stake = decode_stake_state(stake_account_data);
    borrow_against_stake(
        obligation,
        reserve,
        args,
        current_slot,
        current_epoch,
        stake,
        remaining_accounts,
    )
}

} // verus!

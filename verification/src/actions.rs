//! What each instruction does to the accounts it is given.
//!
//! Every action checks, computes and only then writes: one that fails has
//! written nothing. What is to be moved on the ledger is handed back to the
//! caller, who moves it.

use vstd::prelude::*;
use crate::error::{transacts, LendingError};
use crate::key::AccountKey;
use crate::last_update::LastUpdate;
use crate::lending_market::LendingMarket;
use crate::reserve::Reserve;

verus! {

/// Arguments of a deposit of liquidity.
#[derive(Clone, Copy, Debug)]
pub struct DepositLiquidityArgs {
    /// Liquidity to pay in.
    pub liquidity_amount: u64,
}

/// Arguments of a redemption of pool tokens.
#[derive(Clone, Copy, Debug)]
pub struct RedeemLiquidityArgs {
    /// Pool tokens to redeem.
    pub token_amount: u64,
}

/// Arguments of a change of a lending market's owner.
#[derive(Clone, Copy, Debug)]
pub struct SetLendingMarketOwnerArgs {
    /// The owner to be.
    pub new_owner: AccountKey,
}

/// The reserve with the mark set that forces a refresh.
pub open spec fn marked_stale(reserve: Reserve) -> Reserve {
    Reserve { last_update: LastUpdate { slot: reserve.last_update.slot, stale: true }, ..reserve }
}

/// Whether the reserve may be acted upon at `slot`: `MathOverflow` where
/// `slot` lies before its last refresh, `ReserveStale` where it is stale.
pub open spec fn spec_require_fresh(reserve: &Reserve, slot: u64) -> Result<(), LendingError> {
    match reserve.last_update.spec_is_stale(slot) {
        Err(e) => Err(e),
        Ok(stale) => if stale {
            Err(LendingError::ReserveStale)
        } else {
            Ok(())
        },
    }
}

/// Whether the reserve may be acted upon at `slot`.
#[verifier::when_used_as_spec(spec_require_fresh)]
pub fn require_fresh(reserve: &Reserve, slot: u64) -> (fresh: Result<(), LendingError>)
    ensures
        fresh == spec_require_fresh(reserve, slot),
{
    match reserve.last_update.is_stale(slot) {
        Err(e) => Err(e),
        Ok(stale) => if stale {
            Err(LendingError::ReserveStale)
        } else {
            Ok(())
        },
    }
}

/// The reserve after a deposit of liquidity at `current_slot`, with the pool
/// tokens to mint for it.
pub open spec fn spec_deposit_reserve_liquidity(
    reserve: Reserve,
    current_slot: u64,
    args: DepositLiquidityArgs,
) -> Result<(Reserve, u64), LendingError> {
    match spec_require_fresh(&reserve, current_slot) {
        Err(e) => Err(e),
        Ok(_) => match reserve.deposited(args.liquidity_amount) {
            Err(e) => Err(e),
            Ok((paid, minted)) => Ok((marked_stale(paid), minted)),
        },
    }
}

/// The reserve after a redemption of pool tokens at `current_slot`, with the
/// liquidity to pay out for them.
pub open spec fn spec_redeem_reserve_liquidity(
    reserve: Reserve,
    current_slot: u64,
    args: RedeemLiquidityArgs,
) -> Result<(Reserve, u64), LendingError> {
    if args.token_amount == 0 {
        Err(LendingError::InvalidAmount)
    } else {
        match spec_require_fresh(&reserve, current_slot) {
            Err(e) => Err(e),
            Ok(_) => match reserve.redeemed(args.token_amount) {
                Err(e) => Err(e),
                Ok((left, paid)) => Ok((marked_stale(left), paid)),
            },
        }
    }
}

/// What a repayment keeps back: of the yield that the collateral has earned,
/// `ltv_to_max_ratio` percent, rounded down; and on top of it what late
/// fees took off the deposit. `MathOverflow` where the collateral is worth
/// less than was deposited, where more is left after fees than was
/// deposited, or where the fee leaves 64 bits.
pub open spec fn repayment_fee(
    stake_current_value: u64,
    deposited_amount: u64,
    deposited_amount_after_fee: u64,
    ltv_to_max_ratio: u64,
) -> Result<u64, LendingError> {
    if stake_current_value < deposited_amount || deposited_amount_after_fee > deposited_amount {
        Err(LendingError::MathOverflow)
    } else {
        let skim = ((stake_current_value - deposited_amount) * ltv_to_max_ratio) / 100;
        let shortfall = deposited_amount - deposited_amount_after_fee;
        if skim + shortfall > u64::MAX {
            Err(LendingError::MathOverflow)
        } else {
            Ok((skim + shortfall) as u64)
        }
    }
}

/// What a repayment keeps back of the collateral.
#[verifier::when_used_as_spec(repayment_fee)]
pub fn calculate_fee(
    stake_current_value: u64,
    deposited_amount: u64,
    deposited_amount_after_fee: u64,
    ltv_to_max_ratio: u64,
) -> (fee: Result<u64, LendingError>)
    ensures
        fee == repayment_fee(
            stake_current_value,
            deposited_amount,
            deposited_amount_after_fee,
            ltv_to_max_ratio,
        ),
{
    let gained = match stake_current_value.checked_sub(deposited_amount) {
        Some(v) => v,
        None => { return Err(LendingError::MathOverflow); },
    };
    proof {
        crate::shares::lemma_product_fits(gained, ltv_to_max_ratio);
    }
    let skim: u128 = ((gained as u128) * (ltv_to_max_ratio as u128)) / 100;
    if skim > u64::MAX as u128 {
        return Err(LendingError::MathOverflow);
    }
    let mut fee: u64 = skim as u64;
    if deposited_amount != deposited_amount_after_fee {
        let shortfall = match deposited_amount.checked_sub(deposited_amount_after_fee) {
            Some(v) => v,
            None => { return Err(LendingError::MathOverflow); },
        };
        fee = match fee.checked_add(shortfall) {
            Some(v) => v,
            None => { return Err(LendingError::MathOverflow); },
        };
    }
    Ok(fee)
}

/// Deposits liquidity into a reserve that is fresh at `current_slot`, marks
/// the reserve stale, and returns the pool tokens to mint.
pub fn deposit_reserve_liquidity(
    reserve: &mut Reserve,
    current_slot: u64,
    args: DepositLiquidityArgs,
) -> (minted: Result<u64, LendingError>)
    ensures
        transacts(
            *old(reserve),
            *final(reserve),
            minted,
            spec_deposit_reserve_liquidity(*old(reserve), current_slot, args),
        ),
{
    match require_fresh(reserve, current_slot) {
        Ok(_) => {},
        Err(e) => { return Err(e); },
    }
    let token_amount = match reserve.deposit(args.liquidity_amount) {
        Ok(tokens) => tokens,
        Err(e) => { return Err(e); },
    };
    reserve.last_update.mark_stale();
    Ok(token_amount)
}

/// Redeems pool tokens from a reserve that is fresh at `current_slot`, marks
/// the reserve stale, and returns the liquidity to pay out. `InvalidAmount`
/// where no tokens are redeemed.
pub fn redeem_reserve_liquidity(
    reserve: &mut Reserve,
    current_slot: u64,
    args: RedeemLiquidityArgs,
) -> (paid: Result<u64, LendingError>)
    ensures
        transacts(
            *old(reserve),
            *final(reserve),
            paid,
            spec_redeem_reserve_liquidity(*old(reserve), current_slot, args),
        ),
{
    if args.token_amount == 0 {
        return Err(LendingError::InvalidAmount);
    }
    match require_fresh(reserve, current_slot) {
        Ok(_) => {},
        Err(e) => { return Err(e); },
    }
    let liquidity_amount = match reserve.reedem(args.token_amount) {
        Ok(amount) => amount,
        Err(e) => { return Err(e); },
    };
    reserve.last_update.mark_stale();
    Ok(liquidity_amount)
}

/// Hands the lending market to the owner that `args` names.
pub fn set_lending_market_owner(lending_market: &mut LendingMarket, args: SetLendingMarketOwnerArgs)
    ensures
        *final(lending_market) == (LendingMarket { owner: args.new_owner, ..*old(lending_market) }),
{
    lending_market.owner = args.new_owner;
}

/// Every action that changes a reserve's balances leaves the reserve stale:
/// the next one has to wait for a refresh.
pub proof fn lemma_action_forces_refresh(
    reserve: Reserve,
    current_slot: u64,
    later_slot: u64,
    deposit: DepositLiquidityArgs,
    redeem: RedeemLiquidityArgs,
)
    requires
        later_slot >= current_slot,
    ensures
        spec_deposit_reserve_liquidity(reserve, current_slot, deposit) matches Ok((next, _))
            ==> spec_require_fresh(&next, later_slot) == Err::<(), LendingError>(
            LendingError::ReserveStale,
        ),
        spec_redeem_reserve_liquidity(reserve, current_slot, redeem) matches Ok((next, _))
            ==> spec_require_fresh(&next, later_slot) == Err::<(), LendingError>(
            LendingError::ReserveStale,
        ),
{
}

} // verus!

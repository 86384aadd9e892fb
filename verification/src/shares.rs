//! Conversion between an amount of a pooled asset and shares of the pool.
//!
//! A pool that holds `total` units of the asset against `supply` shares
//! values one share at `total / supply` units. Every conversion multiplies
//! first and divides last, and rounds down.

use vstd::prelude::*;
use crate::error::LendingError;

verus! {

/// Shares minted for `amount` units paid into a pool of `total` units and
/// `supply` shares. An empty pool is seeded one share per unit.
pub open spec fn shares_for_deposit(amount: int, total: int, supply: int) -> int {
    if total == 0 || supply == 0 {
        amount
    } else {
        (amount * supply) / total
    }
}

/// Units paid out for `shares` shares of a pool of `total` units and
/// `supply` shares. An empty pool pays nothing.
pub open spec fn underlying_for_shares(shares: int, total: int, supply: int) -> int {
    if total == 0 || supply == 0 {
        0
    } else {
        (shares * total) / supply
    }
}

/// The product of two 64-bit numbers fits in 128 bits.
pub proof fn lemma_product_fits(a: u64, b: u64)
    ensures
        a * b <= u128::MAX,
        a * b >= 0,
{
    assert(a * b <= 0xffff_ffff_ffff_ffff * 0xffff_ffff_ffff_ffff) by (nonlinear_arith)
        requires
            0 <= a <= 0xffff_ffff_ffff_ffff,
            0 <= b <= 0xffff_ffff_ffff_ffff,
    ;
    assert(a * b >= 0) by (nonlinear_arith)
        requires
            0 <= a,
            0 <= b,
    ;
}

/// Shares that stand for less than one unit pay nothing.
pub proof fn lemma_dust_pays_nothing(shares: int, total: int, supply: int)
    requires
        0 <= shares,
        0 <= total,
        0 <= supply,
        shares * total < supply,
    ensures
        underlying_for_shares(shares, total, supply) == 0,
{
    if total != 0 && supply != 0 {
        assert((shares * total) / supply == 0) by (nonlinear_arith)
            requires
                0 <= shares * total < supply,
        ;
    }
}

/// Paying `amount` into a pool that is not empty and taking the minted
/// shares straight out again never pays more than `amount`, whether the
/// shares are valued at the ratio before the deposit or at the ratio after
/// it.
pub proof fn lemma_round_trip_never_gains(amount: int, total: int, supply: int)
    requires
        0 <= amount,
        0 < total,
        0 < supply,
    ensures
        0 <= shares_for_deposit(amount, total, supply),
        underlying_for_shares(shares_for_deposit(amount, total, supply), total, supply) <= amount,
        underlying_for_shares(
            shares_for_deposit(amount, total, supply),
            total + amount,
            supply + shares_for_deposit(amount, total, supply),
        ) <= amount,
{
    let minted = (amount * supply) / total;
    assert(0 <= minted && minted * total <= amount * supply) by (nonlinear_arith)
        requires
            minted == (amount * supply) / total,
            0 <= amount,
            0 < supply,
            0 < total,
    ;
    assert((minted * total) / supply <= amount) by (nonlinear_arith)
        requires
            minted * total <= amount * supply,
            0 < supply,
    ;
    assert((minted * (total + amount)) / (supply + minted) <= amount) by (nonlinear_arith)
        requires
            minted * total <= amount * supply,
            0 <= minted,
            0 < supply,
    ;
}

/// Pool tokens to mint for a deposit of `user_stake_amount` into a pool of
/// `pool_stake_amount` against `token_supply` tokens outstanding;
/// `MathOverflow` exactly when that number does not fit in 64 bits.
pub fn calculate_deposit_amount(
    token_supply: u64,
    pool_stake_amount: u64,
    user_stake_amount: u64,
) -> (minted: Result<u64, LendingError>)
    ensures
        shares_for_deposit(user_stake_amount as int, pool_stake_amount as int, token_supply as int)
            <= u64::MAX ==> minted == Ok::<u64, LendingError>(
            shares_for_deposit(
                user_stake_amount as int,
                pool_stake_amount as int,
                token_supply as int,
            ) as u64,
        ),
        shares_for_deposit(user_stake_amount as int, pool_stake_amount as int, token_supply as int)
            > u64::MAX ==> minted == Err::<u64, LendingError>(LendingError::MathOverflow),
{
    if pool_stake_amount == 0 || token_supply == 0 {
        return Ok(user_stake_amount);
    }
    proof {
        lemma_product_fits(user_stake_amount, token_supply);
    }
    let numerator: u128 = (user_stake_amount as u128) * (token_supply as u128);
    let quotient: u128 = numerator / (pool_stake_amount as u128);
    if quotient <= u64::MAX as u128 {
        Ok(quotient as u64)
    } else {
        Err(LendingError::MathOverflow)
    }
}

/// Pool stake to return for `user_token_amount` tokens of a pool of
/// `pool_stake_amount` against `token_supply` tokens outstanding;
/// `MathOverflow` exactly when that number does not fit in 64 bits.
pub fn calculate_withdraw_amount(
    token_supply: u64,
    pool_stake_amount: u64,
    user_token_amount: u64,
) -> (returned: Result<u64, LendingError>)
    ensures
        underlying_for_shares(
            user_token_amount as int,
            pool_stake_amount as int,
            token_supply as int,
        ) <= u64::MAX ==> returned == Ok::<u64, LendingError>(
            underlying_for_shares(
                user_token_amount as int,
                pool_stake_amount as int,
                token_supply as int,
            ) as u64,
        ),
        underlying_for_shares(
            user_token_amount as int,
            pool_stake_amount as int,
            token_supply as int,
        ) > u64::MAX ==> returned == Err::<u64, LendingError>(LendingError::MathOverflow),
{
    proof {
        lemma_product_fits(user_token_amount, pool_stake_amount);
    }
    let numerator: u128 = (user_token_amount as u128) * (pool_stake_amount as u128);
    let denominator: u128 = token_supply as u128;
    if numerator < denominator || denominator == 0 {
        proof {
            if denominator != 0 {
                lemma_dust_pays_nothing(
                    user_token_amount as int,
                    pool_stake_amount as int,
                    token_supply as int,
                );
            }
        }
        return Ok(0);
    }
    let quotient: u128 = numerator / denominator;
    if quotient <= u64::MAX as u128 {
        Ok(quotient as u64)
    } else {
        Err(LendingError::MathOverflow)
    }
}

} // verus!

//! The liquidity side of a reserve: what lenders paid in, what is lent out,
//! and the pool tokens that stand for both.

use vstd::prelude::*;
use crate::error::{transacts, LendingError};
use crate::key::AccountKey;
use crate::wad::WAD;

verus! {

/// What a new liquidity pool starts with.
#[derive(Clone, Copy, Debug)]
pub struct NewReserveLiquidityParams {
    /// Mint of the pool tokens.
    pub mint_pubkey: AccountKey,
    /// Vault that holds the liquidity.
    pub vault_pubkey: AccountKey,
}

/// The liquidity pool of a reserve.
#[derive(Clone, Copy, Debug)]
pub struct ReserveLiquidity {
    /// Mint of the pool tokens.
    pub mint_pubkey: AccountKey,
    /// Pool tokens outstanding.
    pub mint_total_supply: u64,
    /// Vault that holds the liquidity.
    pub vault_pubkey: AccountKey,
    /// Liquidity at hand.
    pub available_amount: u64,
    /// Liquidity lent out.
    pub borrowed_amount: u64,
    /// Borrow rate compounded over time, scaled by `WAD`.
    pub cumulative_borrow_rate_wads: u128,
}

impl Default for ReserveLiquidity {
    fn default() -> (liquidity: Self)
        ensures
            liquidity.mint_pubkey.is_zero(),
            liquidity.vault_pubkey.is_zero(),
            liquidity.mint_total_supply == 0,
            liquidity.available_amount == 0,
            liquidity.borrowed_amount == 0,
            liquidity.cumulative_borrow_rate_wads == 0,
    {
        ReserveLiquidity {
            mint_pubkey: AccountKey::default(),
            mint_total_supply: 0,
            vault_pubkey: AccountKey::default(),
            available_amount: 0,
            borrowed_amount: 0,
            cumulative_borrow_rate_wads: 0,
        }
    }
}

impl ReserveLiquidity {
    /// The empty pool that `params` describes.
    pub open spec fn spec_new(params: NewReserveLiquidityParams) -> ReserveLiquidity {
        ReserveLiquidity {
            mint_pubkey: params.mint_pubkey,
            mint_total_supply: 0,
            vault_pubkey: params.vault_pubkey,
            available_amount: 0,
            borrowed_amount: 0,
            cumulative_borrow_rate_wads: WAD as u128,
        }
    }

    /// Liquidity at hand and lent out together.
    pub open spec fn total(&self) -> int {
        self.available_amount + self.borrowed_amount
    }

    /// The pool after `mint_amount` tokens are minted.
    pub open spec fn minted(&self, mint_amount: u64) -> Result<(ReserveLiquidity, ()), LendingError> {
        if self.mint_total_supply + mint_amount > u64::MAX {
            Err(LendingError::MathOverflow)
        } else {
            Ok(
                (
                    ReserveLiquidity {
                        mint_total_supply: (self.mint_total_supply + mint_amount) as u64,
                        ..*self
                    },
                    (),
                ),
            )
        }
    }

    /// The pool after `burn_amount` tokens are burned.
    pub open spec fn burned(&self, burn_amount: u64) -> Result<(ReserveLiquidity, ()), LendingError> {
        if self.mint_total_supply < burn_amount {
            Err(LendingError::MathOverflow)
        } else {
            Ok(
                (
                    ReserveLiquidity {
                        mint_total_supply: (self.mint_total_supply - burn_amount) as u64,
                        ..*self
                    },
                    (),
                ),
            )
        }
    }

    /// The pool after `liquidity_amount` is paid in.
    pub open spec fn deposited(&self, liquidity_amount: u64) -> Result<
        (ReserveLiquidity, ()),
        LendingError,
    > {
        if self.available_amount + liquidity_amount > u64::MAX {
            Err(LendingError::MathOverflow)
        } else {
            Ok(
                (
                    ReserveLiquidity {
                        available_amount: (self.available_amount + liquidity_amount) as u64,
                        ..*self
                    },
                    (),
                ),
            )
        }
    }

    /// The pool after `liquidity_amount` is paid out.
    pub open spec fn withdrawn(&self, liquidity_amount: u64) -> Result<
        (ReserveLiquidity, ()),
        LendingError,
    > {
        if liquidity_amount > self.available_amount {
            Err(LendingError::InsufficientLiquidity)
        } else {
            Ok(
                (
                    ReserveLiquidity {
                        available_amount: (self.available_amount - liquidity_amount) as u64,
                        ..*self
                    },
                    (),
                ),
            )
        }
    }

    /// The pool after `borrow_amount` is lent out.
    pub open spec fn borrowed(&self, borrow_amount: u64) -> Result<
        (ReserveLiquidity, ()),
        LendingError,
    > {
        if borrow_amount > self.available_amount {
            Err(LendingError::InsufficientLiquidity)
        } else if self.borrowed_amount + borrow_amount > u64::MAX {
            Err(LendingError::MathOverflow)
        } else {
            Ok(
                (
                    ReserveLiquidity {
                        available_amount: (self.available_amount - borrow_amount) as u64,
                        borrowed_amount: (self.borrowed_amount + borrow_amount) as u64,
                        ..*self
                    },
                    (),
                ),
            )
        }
    }

    /// The pool after `repay_amount` comes back and `settle_amount` of the
    /// debt is settled.
    pub open spec fn repaid(&self, repay_amount: u64, settle_amount: u64) -> Result<
        (ReserveLiquidity, ()),
        LendingError,
    > {
        if self.available_amount + repay_amount > u64::MAX || self.borrowed_amount
            < settle_amount {
            Err(LendingError::MathOverflow)
        } else {
            Ok(
                (
                    ReserveLiquidity {
                        available_amount: (self.available_amount + repay_amount) as u64,
                        borrowed_amount: (self.borrowed_amount - settle_amount) as u64,
                        ..*self
                    },
                    (),
                ),
            )
        }
    }

    /// The pool after `liquidate_amount` of the debt is written off.
    pub open spec fn liquidated(&self, liquidate_amount: u64) -> Result<
        (ReserveLiquidity, ()),
        LendingError,
    > {
        if self.borrowed_amount < liquidate_amount {
            Err(LendingError::MathOverflow)
        } else {
            Ok(
                (
                    ReserveLiquidity {
                        borrowed_amount: (self.borrowed_amount - liquidate_amount) as u64,
                        ..*self
                    },
                    (),
                ),
            )
        }
    }

    /// A new, empty pool.
    pub fn new(params: NewReserveLiquidityParams) -> (liquidity: Self)
        ensures
            liquidity == ReserveLiquidity::spec_new(params),
    {
        ReserveLiquidity {
            mint_pubkey: params.mint_pubkey,
            mint_total_supply: 0,
            vault_pubkey: params.vault_pubkey,
            available_amount: 0,
            borrowed_amount: 0,
            cumulative_borrow_rate_wads: WAD as u128,
        }
    }

    /// Liquidity at hand and lent out together; `MathOverflow` exactly when
    /// the sum leaves 64 bits.
    pub fn total_liquidity(&self) -> (total: Result<u64, LendingError>)
        ensures
            self.total() <= u64::MAX ==> total == Ok::<u64, LendingError>(self.total() as u64),
            self.total() > u64::MAX ==> total == Err::<u64, LendingError>(
                LendingError::MathOverflow,
            ),
    {
        match self.available_amount.checked_add(self.borrowed_amount) {
            Some(total) => Ok(total),
            None => Err(LendingError::MathOverflow),
        }
    }

    /// Adds minted tokens to the supply; `MathOverflow` exactly when the
    /// supply would leave 64 bits.
    pub fn mint(&mut self, mint_amount: u64) -> (done: Result<(), LendingError>)
        ensures
            transacts(*old(self), *final(self), done, old(self).minted(mint_amount)),
    {
        match self.mint_total_supply.checked_add(mint_amount) {
            Some(supply) => {
                self.mint_total_supply = supply;
                Ok(())
            },
            None => Err(LendingError::MathOverflow),
        }
    }

    /// Takes burned tokens off the supply; `MathOverflow` exactly when more
    /// would be burned than are outstanding.
    pub fn burn(&mut self, burn_amount: u64) -> (done: Result<(), LendingError>)
        ensures
            transacts(*old(self), *final(self), done, old(self).burned(burn_amount)),
    {
        match self.mint_total_supply.checked_sub(burn_amount) {
            Some(supply) => {
                self.mint_total_supply = supply;
                Ok(())
            },
            None => Err(LendingError::MathOverflow),
        }
    }

    /// Adds to the liquidity at hand; `MathOverflow` exactly when it would
    /// leave 64 bits.
    pub fn deposit(&mut self, liquidity_amount: u64) -> (done: Result<(), LendingError>)
        ensures
            transacts(*old(self), *final(self), done, old(self).deposited(liquidity_amount)),
    {
        match self.available_amount.checked_add(liquidity_amount) {
            Some(available) => {
                self.available_amount = available;
                Ok(())
            },
            None => Err(LendingError::MathOverflow),
        }
    }

    /// Takes from the liquidity at hand; `InsufficientLiquidity` exactly
    /// when more is asked than is at hand.
    pub fn withdraw(&mut self, liquidity_amount: u64) -> (done: Result<(), LendingError>)
        ensures
            transacts(*old(self), *final(self), done, old(self).withdrawn(liquidity_amount)),
    {
        if liquidity_amount > self.available_amount {
            return Err(LendingError::InsufficientLiquidity);
        }
        self.available_amount = self.available_amount - liquidity_amount;
        Ok(())
    }

    /// Moves liquidity from at hand to lent out; `InsufficientLiquidity`
    /// where more is asked than is at hand, else `MathOverflow` where the
    /// debt would leave 64 bits.
    pub fn borrow(&mut self, borrow_amount: u64) -> (done: Result<(), LendingError>)
        ensures
            transacts(*old(self), *final(self), done, old(self).borrowed(borrow_amount)),
    {
        if borrow_amount > self.available_amount {
            return Err(LendingError::InsufficientLiquidity);
        }
        let borrowed = match self.borrowed_amount.checked_add(borrow_amount) {
            Some(v) => v,
            None => { return Err(LendingError::MathOverflow); },
        };
        self.available_amount = self.available_amount - borrow_amount;
        self.borrowed_amount = borrowed;
        Ok(())
    }

    /// Takes `repay_amount` back and settles `settle_amount` of the debt;
    /// `MathOverflow` exactly when the liquidity at hand would leave 64 bits
    /// or more would be settled than is lent out.
    pub fn repay(&mut self, repay_amount: u64, settle_amount: u64) -> (done: Result<
        (),
        LendingError,
    >)
        ensures
            transacts(*old(self), *final(self), done, old(self).repaid(repay_amount, settle_amount)),
    {
        let available = match self.available_amount.checked_add(repay_amount) {
            Some(v) => v,
            None => { return Err(LendingError::MathOverflow); },
        };
        let borrowed = match self.borrowed_amount.checked_sub(settle_amount) {
            Some(v) => v,
            None => { return Err(LendingError::MathOverflow); },
        };
        self.available_amount = available;
        self.borrowed_amount = borrowed;
        Ok(())
    }

    /// Writes `liquidate_amount` of the debt off; `MathOverflow` exactly
    /// when that is more than is lent out.
    pub fn liquidate(&mut self, liquidate_amount: u64) -> (done: Result<(), LendingError>)
        ensures
            transacts(*old(self), *final(self), done, old(self).liquidated(liquidate_amount)),
    {
        match self.borrowed_amount.checked_sub(liquidate_amount) {
            Some(borrowed) => {
                self.borrowed_amount = borrowed;
                Ok(())
            },
            None => Err(LendingError::MathOverflow),
        }
    }

    /// Lending and taking back move liquidity between at hand and lent out:
    /// what the pool holds in all stays the same.
    pub proof fn lemma_borrow_and_repay_keep_total(&self, amount: u64)
        ensures
            self.borrowed(amount) matches Ok((lent, _)) ==> lent.total() == self.total(),
            self.repaid(amount, amount) matches Ok((back, _)) ==> back.total() == self.total(),
    {
    }
}

} // verus!

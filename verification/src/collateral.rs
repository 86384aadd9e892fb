//! The collateral side of a reserve: the stake that borrowers deposited,
//! the shares that weigh each deposit, and the yield waiting to be claimed.

use vstd::prelude::*;
use crate::error::{transacts, LendingError};
use crate::key::AccountKey;

verus! {

/// What a new collateral pool starts with.
#[derive(Clone, Copy, Debug)]
pub struct NewReserveCollateralParams {
    /// Mint of the collateral shares.
    pub mint_pubkey: AccountKey,
    /// Stake account that holds the pooled collateral.
    pub stake_account: AccountKey,
}

/// The collateral pool of a reserve.
#[derive(Clone, Copy, Debug)]
pub struct ReserveCollateral {
    /// Mint of the collateral shares.
    pub mint_pubkey: AccountKey,
    /// Collateral shares outstanding.
    pub mint_total_supply: u64,
    /// Stake account that holds the pooled collateral.
    pub stake_account: AccountKey,
    /// Collateral held.
    pub collateral_amount: u64,
    /// Yield and fees that the next epoch refresh will unstake.
    pub collateral_amount_to_claim: u64,
}

impl Default for ReserveCollateral {
    fn default() -> (collateral: Self)
        ensures
            collateral.mint_pubkey.is_zero(),
            collateral.stake_account.is_zero(),
            collateral.mint_total_supply == 0,
            collateral.collateral_amount == 0,
            collateral.collateral_amount_to_claim == 0,
    {
        ReserveCollateral {
            mint_pubkey: AccountKey::default(),
            mint_total_supply: 0,
            stake_account: AccountKey::default(),
            collateral_amount: 0,
            collateral_amount_to_claim: 0,
        }
    }
}

impl ReserveCollateral {
    /// The empty pool that `params` describes.
    pub open spec fn spec_new(params: NewReserveCollateralParams) -> ReserveCollateral {
        ReserveCollateral {
            mint_pubkey: params.mint_pubkey,
            mint_total_supply: 0,
            stake_account: params.stake_account,
            collateral_amount: 0,
            collateral_amount_to_claim: 0,
        }
    }

    /// The pool after `mint_amount` shares are minted.
    pub open spec fn minted(&self, mint_amount: u64) -> Result<
        (ReserveCollateral, ()),
        LendingError,
    > {
        if self.mint_total_supply + mint_amount > u64::MAX {
            Err(LendingError::MathOverflow)
        } else {
            Ok(
                (
                    ReserveCollateral {
                        mint_total_supply: (self.mint_total_supply + mint_amount) as u64,
                        ..*self
                    },
                    (),
                ),
            )
        }
    }

    /// The pool after `burn_amount` shares are burned.
    pub open spec fn burned(&self, burn_amount: u64) -> Result<
        (ReserveCollateral, ()),
        LendingError,
    > {
        if self.mint_total_supply < burn_amount {
            Err(LendingError::MathOverflow)
        } else {
            Ok(
                (
                    ReserveCollateral {
                        mint_total_supply: (self.mint_total_supply - burn_amount) as u64,
                        ..*self
                    },
                    (),
                ),
            )
        }
    }

    /// The pool after `interest_amount` more waits to be claimed.
    pub open spec fn interest_claimed(&self, interest_amount: u64) -> Result<
        (ReserveCollateral, ()),
        LendingError,
    > {
        if self.collateral_amount_to_claim + interest_amount > u64::MAX {
            Err(LendingError::MathOverflow)
        } else {
            Ok(
                (
                    ReserveCollateral {
                        collateral_amount_to_claim: (self.collateral_amount_to_claim
                            + interest_amount) as u64,
                        ..*self
                    },
                    (),
                ),
            )
        }
    }

    /// The pool after `collateral_amount` is deposited.
    pub open spec fn deposited(&self, collateral_amount: u64) -> Result<
        (ReserveCollateral, ()),
        LendingError,
    > {
        if self.collateral_amount + collateral_amount > u64::MAX {
            Err(LendingError::MathOverflow)
        } else {
            Ok(
                (
                    ReserveCollateral {
                        collateral_amount: (self.collateral_amount + collateral_amount) as u64,
                        ..*self
                    },
                    (),
                ),
            )
        }
    }

    /// The pool after `collateral_amount` is released.
    pub open spec fn withdrawn(&self, collateral_amount: u64) -> Result<
        (ReserveCollateral, ()),
        LendingError,
    > {
        if collateral_amount > self.collateral_amount {
            Err(LendingError::InsufficientLiquidity)
        } else {
            Ok(
                (
                    ReserveCollateral {
                        collateral_amount: (self.collateral_amount - collateral_amount) as u64,
                        ..*self
                    },
                    (),
                ),
            )
        }
    }

    /// The pool after a position is settled: `amount` is released,
    /// `interest_amount` is kept back to be claimed, and `weighted_amount`
    /// shares are burned.
    pub open spec fn settled(&self, amount: u64, interest_amount: u64, weighted_amount: u64) -> Result<
        (ReserveCollateral, ()),
        LendingError,
    > {
        match self.withdrawn(amount) {
            Err(e) => Err(e),
            Ok((released, _)) => match released.interest_claimed(interest_amount) {
                Err(e) => Err(e),
                Ok((kept, _)) => kept.burned(weighted_amount),
            },
        }
    }

    /// A new, empty pool.
    pub fn new(params: NewReserveCollateralParams) -> (collateral: Self)
        ensures
            collateral == ReserveCollateral::spec_new(params),
    {
        ReserveCollateral {
            mint_pubkey: params.mint_pubkey,
            mint_total_supply: 0,
            stake_account: params.stake_account,
            collateral_amount: 0,
            collateral_amount_to_claim: 0,
        }
    }

    /// Adds minted shares to the supply; `MathOverflow` exactly when the
    /// supply would leave 64 bits.
    pub fn mint(&mut self, mint_amount: u64) -> (done: Result<(), LendingError>)
        ensures
            transacts(*old(self), *final(self), done, old(self).minted(mint_amount)),
    {
        match self.mint_total_supply.checked_add(mint_amount) {
            Some(supply) => {
                self.mint_total_supply = supply;
                Ok(())
            },
            None => Err(LendingError::MathOverflow),
        }
    }

    /// Takes burned shares off the supply; `MathOverflow` exactly when more
    /// would be burned than are outstanding.
    pub fn burn(&mut self, burn_amount: u64) -> (done: Result<(), LendingError>)
        ensures
            transacts(*old(self), *final(self), done, old(self).burned(burn_amount)),
    {
        match self.mint_total_supply.checked_sub(burn_amount) {
            Some(supply) => {
                self.mint_total_supply = supply;
                Ok(())
            },
            None => Err(LendingError::MathOverflow),
        }
    }

    /// Adds to what waits to be claimed; `MathOverflow` exactly when that
    /// would leave 64 bits.
    pub fn claim_interest(&mut self, interest_amount: u64) -> (done: Result<(), LendingError>)
        ensures
            transacts(*old(self), *final(self), done, old(self).interest_claimed(interest_amount)),
    {
        match self.collateral_amount_to_claim.checked_add(interest_amount) {
            Some(to_claim) => {
                self.collateral_amount_to_claim = to_claim;
                Ok(())
            },
            None => Err(LendingError::MathOverflow),
        }
    }

    /// Settles a position that is repaid or liquidated: releases `amount`
    /// (`InsufficientLiquidity` where the pool holds less), keeps
    /// `interest_amount` back to be claimed and burns `weighted_amount`
    /// shares (`MathOverflow` where either leaves its range).
    pub fn repay_or_liquidate(&mut self, amount: u64, interest_amount: u64, weighted_amount: u64) -> (done:
        Result<(), LendingError>)
        ensures
            transacts(
                *old(self),
                *final(self),
                done,
                old(self).settled(amount, interest_amount, weighted_amount),
            ),
    {
        let mut next: ReserveCollateral = *self;
        match next.withdraw(amount) {
            Ok(_) => {},
            Err(e) => { return Err(e); },
        }
        match next.claim_interest(interest_amount) {
            Ok(_) => {},
            Err(e) => { return Err(e); },
        }
        match next.burn(weighted_amount) {
            Ok(_) => {},
            Err(e) => { return Err(e); },
        }
        *self = next;
        Ok(())
    }

    /// Adds to the collateral held; `MathOverflow` exactly when it would
    /// leave 64 bits.
    pub fn deposit(&mut self, collateral_amount: u64) -> (done: Result<(), LendingError>)
        ensures
            transacts(*old(self), *final(self), done, old(self).deposited(collateral_amount)),
    {
        match self.collateral_amount.checked_add(collateral_amount) {
            Some(held) => {
                self.collateral_amount = held;
                Ok(())
            },
            None => Err(LendingError::MathOverflow),
        }
    }

    /// Releases collateral; `InsufficientLiquidity` exactly when more is
    /// asked than the pool holds.
    pub fn withdraw(&mut self, collateral_amount: u64) -> (done: Result<(), LendingError>)
        ensures
            transacts(*old(self), *final(self), done, old(self).withdrawn(collateral_amount)),
    {
        if collateral_amount > self.collateral_amount {
            return Err(LendingError::InsufficientLiquidity);
        }
        self.collateral_amount = self.collateral_amount - collateral_amount;
        Ok(())
    }
}

} // verus!

//! One borrower's deposit and debt against one collateral source.

use vstd::prelude::*;
use crate::error::{transacts, LendingError};
use crate::key::AccountKey;
use crate::loan::LoanType;

verus! {

/// What a new position starts with.
#[derive(Clone, Copy, Debug)]
pub struct InitObligationPositionParams {
    /// Vote account that the collateral is staked with.
    pub vote_account: AccountKey,
    /// Class of the loan.
    pub loan_type: LoanType,
    /// Collateral deposited.
    pub deposited_amount: u64,
    /// The same collateral in shares of the collateral pool.
    pub weighted_deposited_amount: u64,
    /// Liquidity borrowed.
    pub borrowed_amount: u64,
}

/// A borrower's exposure against the collateral staked with one vote account.
#[derive(Clone, Copy, Debug)]
pub struct ObligationPosition {
    /// Vote account that the collateral is staked with.
    pub vote_account: AccountKey,
    /// Class of the loan, with its starting epoch.
    pub loan_type: LoanType,
    /// Collateral deposited.
    pub deposited_amount: u64,
    /// The same collateral in shares of the collateral pool.
    pub weighted_deposited_amount: u64,
    /// Liquidity borrowed.
    pub borrowed_amount: u64,
}

/// Whether debt `borrowed` against collateral `deposited` is within
/// `max_ratio` percent. Without collateral the ratio does not exist
/// (`MathOverflow`), nor where a hundred times the debt leaves 64 bits.
pub open spec fn ltv_verdict(borrowed: int, deposited: int, max_ratio: int) -> Result<
    (),
    LendingError,
> {
    if borrowed * 100 > u64::MAX || deposited == 0 {
        Err(LendingError::MathOverflow)
    } else if borrowed * 100 > max_ratio * deposited {
        Err(LendingError::LoanToValueTooHigh)
    } else {
        Ok(())
    }
}

impl ObligationPosition {
    /// The position that `params` describes.
    pub open spec fn spec_new(params: InitObligationPositionParams) -> ObligationPosition {
        ObligationPosition {
            vote_account: params.vote_account,
            loan_type: params.loan_type,
            deposited_amount: params.deposited_amount,
            weighted_deposited_amount: params.weighted_deposited_amount,
            borrowed_amount: params.borrowed_amount,
        }
    }

    /// The debt is within the loan class's share of the collateral.
    pub open spec fn within_ltv(&self) -> bool {
        self.borrowed_amount * 100 <= self.loan_type.spec_max_ratio() * self.deposited_amount
    }

    /// The position after a deposit of `collateral_amount`, worth
    /// `weighted_collateral_amount` pool shares.
    pub open spec fn with_deposit(
        &self,
        collateral_amount: u64,
        weighted_collateral_amount: u64,
    ) -> Result<(ObligationPosition, ()), LendingError> {
        if self.deposited_amount + collateral_amount > u64::MAX || self.weighted_deposited_amount
            + weighted_collateral_amount > u64::MAX {
            Err(LendingError::MathOverflow)
        } else {
            Ok(
                (
                    ObligationPosition {
                        deposited_amount: (self.deposited_amount + collateral_amount) as u64,
                        weighted_deposited_amount: (self.weighted_deposited_amount
                            + weighted_collateral_amount) as u64,
                        ..*self
                    },
                    (),
                ),
            )
        }
    }

    /// The position after `collateral_amount`, worth
    /// `weighted_collateral_amount` pool shares, is taken out of it.
    pub open spec fn with_withdrawal(
        &self,
        collateral_amount: u64,
        weighted_collateral_amount: u64,
    ) -> Result<(ObligationPosition, ()), LendingError> {
        if self.deposited_amount < collateral_amount {
            Err(LendingError::InsufficientCollateral)
        } else {
            match ltv_verdict(
                self.borrowed_amount as int,
                self.deposited_amount - collateral_amount,
                self.loan_type.spec_max_ratio() as int,
            ) {
                Err(e) => Err(e),
                Ok(_) => if self.weighted_deposited_amount < weighted_collateral_amount {
                    Err(LendingError::MathOverflow)
                } else {
                    Ok(
                        (
                            ObligationPosition {
                                deposited_amount: (self.deposited_amount
                                    - collateral_amount) as u64,
                                weighted_deposited_amount: (self.weighted_deposited_amount
                                    - weighted_collateral_amount) as u64,
                                ..*self
                            },
                            (),
                        ),
                    )
                },
            }
        }
    }

    /// The position after `borrow_amount` more is borrowed.
    pub open spec fn with_borrow(&self, borrow_amount: u64) -> Result<
        (ObligationPosition, ()),
        LendingError,
    > {
        if self.borrowed_amount + borrow_amount > u64::MAX {
            Err(LendingError::MathOverflow)
        } else {
            match ltv_verdict(
                self.borrowed_amount + borrow_amount,
                self.deposited_amount as int,
                self.loan_type.spec_max_ratio() as int,
            ) {
                Err(e) => Err(e),
                Ok(_) => Ok(
                    (
                        ObligationPosition {
                            borrowed_amount: (self.borrowed_amount + borrow_amount) as u64,
                            ..*self
                        },
                        (),
                    ),
                ),
            }
        }
    }

    /// What is left of the deposit at `current_epoch`, after late fees.
    pub open spec fn deposit_after_fees(&self, current_epoch: u64) -> int {
        (self.deposited_amount * self.loan_type.fee_percentage(current_epoch)) / 100
    }

    /// The debt exceeds what is left of the deposit at `current_epoch`.
    pub open spec fn is_liquidatable(&self, current_epoch: u64) -> bool {
        self.borrowed_amount > self.deposit_after_fees(current_epoch)
    }

    /// What resolving the position at `current_epoch` collects: the debt
    /// where the position is liquidatable, else what is left of the deposit.
    pub open spec fn collectible_amount(&self, current_epoch: u64) -> int {
        if self.is_liquidatable(current_epoch) {
            self.borrowed_amount as int
        } else {
            self.deposit_after_fees(current_epoch)
        }
    }

    /// The debt as a percentage of the most that the loan class allows
    /// against the deposit, rounded down.
    pub open spec fn ltv_to_max_ratio(&self) -> int {
        (100 * self.borrowed_amount) / (self.deposited_amount * self.loan_type.spec_max_ratio())
    }

    /// A new position holding what `params` names.
    pub fn new(params: InitObligationPositionParams) -> (position: Self)
        ensures
            position == ObligationPosition::spec_new(params),
    {
        ObligationPosition {
            vote_account: params.vote_account,
            loan_type: params.loan_type,
            deposited_amount: params.deposited_amount,
            weighted_deposited_amount: params.weighted_deposited_amount,
            borrowed_amount: params.borrowed_amount,
        }
    }

    /// Adds to the deposit and to its weight; `MathOverflow` exactly when
    /// either sum leaves 64 bits.
    pub fn deposit(&mut self, collateral_amount: u64, weighted_collateral_amount: u64) -> (done:
        Result<(), LendingError>)
        ensures
            transacts(
                *old(self),
                *final(self),
                done,
                old(self).with_deposit(collateral_amount, weighted_collateral_amount),
            ),
    {
        let deposited = match self.deposited_amount.checked_add(collateral_amount) {
            Some(v) => v,
            None => { return Err(LendingError::MathOverflow); },
        };
        let weighted = match self.weighted_deposited_amount.checked_add(
            weighted_collateral_amount,
        ) {
            Some(v) => v,
            None => { return Err(LendingError::MathOverflow); },
        };
        self.deposited_amount = deposited;
        self.weighted_deposited_amount = weighted;
        Ok(())
    }

    /// Takes collateral out: `InsufficientCollateral` where the deposit is
    /// smaller than `collateral_amount`; else the verdict on the debt
    /// against what would be left; else `MathOverflow` where the weight is
    /// smaller than `weighted_collateral_amount`. Only then are both
    /// reduced.
    pub fn withdraw(&mut self, collateral_amount: u64, weighted_collateral_amount: u64) -> (done:
        Result<(), LendingError>)
        ensures
            transacts(
                *old(self),
                *final(self),
                done,
                old(self).with_withdrawal(collateral_amount, weighted_collateral_amount),
            ),
    {
        let new_deposited = match self.deposited_amount.checked_sub(collateral_amount) {
            Some(v) => v,
            None => { return Err(LendingError::InsufficientCollateral); },
        };
        match self.check_ltv(self.borrowed_amount, new_deposited) {
            Ok(_) => {},
            Err(e) => { return Err(e); },
        }
        let new_weighted = match self.weighted_deposited_amount.checked_sub(
            weighted_collateral_amount,
        ) {
            Some(v) => v,
            None => { return Err(LendingError::MathOverflow); },
        };
        self.deposited_amount = new_deposited;
        self.weighted_deposited_amount = new_weighted;
        Ok(())
    }

    /// Borrows `borrow_amount` more: `MathOverflow` where the debt would
    /// leave 64 bits, else the verdict on the new debt against the deposit.
    pub fn borrow(&mut self, borrow_amount: u64) -> (done: Result<(), LendingError>)
        ensures
            transacts(*old(self), *final(self), done, old(self).with_borrow(borrow_amount)),
    {
        let new_borrowed = match self.borrowed_amount.checked_add(borrow_amount) {
            Some(v) => v,
            None => { return Err(LendingError::MathOverflow); },
        };
        match self.check_ltv(new_borrowed, self.deposited_amount) {
            Ok(_) => {},
            Err(e) => { return Err(e); },
        }
        self.borrowed_amount = new_borrowed;
        Ok(())
    }

    /// The verdict on debt `new_borrowed` against collateral
    /// `new_deposited` for this position's loan class.
    pub fn check_ltv(&self, new_borrowed: u64, new_deposited: u64) -> (verdict: Result<
        (),
        LendingError,
    >)
        ensures
            verdict == ltv_verdict(
                new_borrowed as int,
                new_deposited as int,
                self.loan_type.spec_max_ratio() as int,
            ),
    {
        let scaled = match new_borrowed.checked_mul(100) {
            Some(v) => v,
            None => { return Err(LendingError::MathOverflow); },
        };
        if new_deposited == 0 {
            return Err(LendingError::MathOverflow);
        }
        let max_ratio: u64 = self.loan_type.max_ratio();
        proof {
            crate::shares::lemma_product_fits(max_ratio, new_deposited);
        }
        let limit: u128 = (max_ratio as u128) * (new_deposited as u128);
        if scaled as u128 > limit {
            return Err(LendingError::LoanToValueTooHigh);
        }
        Ok(())
    }

    /// Whether the position is liquidatable at `current_epoch`, and what
    /// resolving it collects. Never fails.
    pub fn get_deposit_status(&self, current_epoch: u64) -> (status: Result<
        (bool, u64),
        LendingError,
    >)
        ensures
            0 <= self.collectible_amount(current_epoch) <= u64::MAX,
            status == Ok::<(bool, u64), LendingError>(
                (
                    self.is_liquidatable(current_epoch),
                    self.collectible_amount(current_epoch) as u64,
                ),
            ),
    {
        let start: u64 = self.loan_type.epoch();
        let loan_duration: u64 = self.loan_type.duration();
        let epoch_elapsed: u64 = current_epoch.saturating_sub(start);
        let fee_percentage: u64 = if epoch_elapsed <= loan_duration {
            100
        } else {
            let late_epochs: u64 = epoch_elapsed - loan_duration;
            proof {
                crate::shares::lemma_product_fits(late_epochs, crate::loan::LATE_FEE);
            }
            let decay: u128 = (late_epochs as u128) * (crate::loan::LATE_FEE as u128);
            if decay >= 100 {
                0
            } else {
                100 - (decay as u64)
            }
        };
        assert(fee_percentage == self.loan_type.fee_percentage(current_epoch));
        let deposited: u64 = self.deposited_amount;
        assert(0 <= (deposited * fee_percentage) / 100 <= deposited) by (nonlinear_arith)
            requires
                0 <= fee_percentage <= 100,
                0 <= deposited,
        ;
        assert(deposited * fee_percentage <= u128::MAX) by (nonlinear_arith)
            requires
                0 <= fee_percentage <= 100,
                0 <= deposited <= u64::MAX,
        ;
        let deposited_amount_after_fees: u64 = (((deposited as u128) * (fee_percentage as u128))
            / 100) as u64;
        let is_liquidatable = self.borrowed_amount > deposited_amount_after_fees;
        if is_liquidatable {
            Ok((true, self.borrowed_amount))
        } else {
            Ok((false, deposited_amount_after_fees))
        }
    }

    /// The debt as a percentage of the most that the loan class allows
    /// against the deposit; `MathOverflow` exactly when there is no deposit
    /// or that percentage leaves 64 bits.
    pub fn get_ltv_to_max_ratio(&self) -> (ratio: Result<u64, LendingError>)
        ensures
            self.deposited_amount == 0 || self.ltv_to_max_ratio() > u64::MAX ==> ratio == Err::<
                u64,
                LendingError,
            >(LendingError::MathOverflow),
            self.deposited_amount != 0 && self.ltv_to_max_ratio() <= u64::MAX ==> ratio == Ok::<
                u64,
                LendingError,
            >(self.ltv_to_max_ratio() as u64),
    {
        if self.deposited_amount == 0 {
            return Err(LendingError::MathOverflow);
        }
        let max_ratio: u64 = self.loan_type.max_ratio();
        proof {
            crate::shares::lemma_product_fits(self.deposited_amount, max_ratio);
        }
        let numerator: u128 = 100 * (self.borrowed_amount as u128);
        let denominator: u128 = (self.deposited_amount as u128) * (max_ratio as u128);
        assert(denominator > 0) by (nonlinear_arith)
            requires
                denominator == self.deposited_amount * max_ratio,
                self.deposited_amount > 0,
                max_ratio > 0,
        ;
        let normalized: u128 = numerator / denominator;
        if normalized <= u64::MAX as u128 {
            Ok(normalized as u64)
        } else {
            Err(LendingError::MathOverflow)
        }
    }

    /// A successful borrow leaves the debt within the loan class's share of
    /// the collateral.
    pub proof fn lemma_borrow_keeps_ltv(&self, borrow_amount: u64)
        requires
            self.with_borrow(borrow_amount) is Ok,
        ensures
            self.with_borrow(borrow_amount)->Ok_0.0.within_ltv(),
    {
    }

    /// A successful withdrawal leaves the debt within the loan class's share
    /// of the collateral.
    pub proof fn lemma_withdrawal_keeps_ltv(
        &self,
        collateral_amount: u64,
        weighted_collateral_amount: u64,
    )
        requires
            self.with_withdrawal(collateral_amount, weighted_collateral_amount) is Ok,
        ensures
            self.with_withdrawal(collateral_amount, weighted_collateral_amount)->Ok_0.0.within_ltv(),
    {
    }

    /// A position at its limit cannot borrow one unit more.
    pub proof fn lemma_no_borrow_beyond_limit(&self, borrow_amount: u64)
        requires
            self.deposited_amount > 0,
            (self.borrowed_amount + borrow_amount) * 100 <= u64::MAX,
            (self.borrowed_amount + borrow_amount) * 100 > self.loan_type.spec_max_ratio()
                * self.deposited_amount,
        ensures
            self.with_borrow(borrow_amount) == Err::<(ObligationPosition, ()), LendingError>(
                LendingError::LoanToValueTooHigh,
            ),
    {
    }

    /// Until the loan has outrun its duration the whole deposit is left.
    pub proof fn lemma_no_decay_within_duration(&self, current_epoch: u64)
        requires
            self.loan_type.epochs_elapsed(current_epoch) <= self.loan_type.spec_duration(),
        ensures
            self.deposit_after_fees(current_epoch) == self.deposited_amount,
    {
    }

    /// Once the loan has outrun its duration, less than the deposit is left.
    pub proof fn lemma_decay_after_duration(&self, current_epoch: u64)
        requires
            self.loan_type.epochs_elapsed(current_epoch) > self.loan_type.spec_duration(),
            self.deposited_amount > 0,
        ensures
            self.deposit_after_fees(current_epoch) < self.deposited_amount,
    {
        let left = self.loan_type.fee_percentage(current_epoch);
        let deposited = self.deposited_amount as int;
        assert((deposited * left) / 100 < deposited) by (nonlinear_arith)
            requires
                0 <= left < 100,
                deposited > 0,
        ;
    }

    /// What is left of the deposit never grows with time, and lies between
    /// nothing and the whole deposit.
    pub proof fn lemma_deposit_after_fees_decays(&self, earlier: u64, later: u64)
        requires
            earlier <= later,
        ensures
            0 <= self.deposit_after_fees(later) <= self.deposit_after_fees(earlier)
                <= self.deposited_amount,
    {
        self.loan_type.lemma_fee_percentage_decays(earlier, later);
        let left_later = self.loan_type.fee_percentage(later);
        let left_earlier = self.loan_type.fee_percentage(earlier);
        let deposited = self.deposited_amount as int;
        assert(0 <= (deposited * left_later) / 100 <= (deposited * left_earlier) / 100
            <= deposited) by (nonlinear_arith)
            requires
                0 <= left_later <= left_earlier <= 100,
                0 <= deposited,
        ;
    }

    /// With time a position only gets worse: once liquidatable it stays so,
    /// and what resolving it collects never grows.
    pub proof fn lemma_status_only_worsens(&self, earlier: u64, later: u64)
        requires
            earlier <= later,
        ensures
            self.is_liquidatable(earlier) ==> self.is_liquidatable(later),
            self.collectible_amount(later) <= self.collectible_amount(earlier),
    {
        self.lemma_deposit_after_fees_decays(earlier, later);
    }

    /// A loan late enough has nothing left of its deposit.
    pub proof fn lemma_decay_ends_at_nothing(&self, current_epoch: u64)
        requires
            self.loan_type.late_epochs(current_epoch) * crate::loan::LATE_FEE >= 100,
        ensures
            self.deposit_after_fees(current_epoch) == 0,
    {
    }
}

} // verus!

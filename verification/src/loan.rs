//! Loan classes: how long a loan may run and how much it may borrow.

use vstd::prelude::*;
use crate::error::LendingError;

verus! {

/// Most that a short loan may borrow, as a percentage of its collateral.
pub const SHORT_MAX_RATIO: u64 = 50;

/// Most that a medium loan may borrow, as a percentage of its collateral.
pub const MEDIUM_MAX_RATIO: u64 = 40;

/// Most that a long loan may borrow, as a percentage of its collateral.
pub const LONG_MAX_RATIO: u64 = 30;

/// Epochs that a short loan may run before late fees accrue.
pub const SHORT_LOAN_DURATION: u64 = 15;

/// Epochs that a medium loan may run before late fees accrue.
pub const MEDIUM_LOAN_DURATION: u64 = 45;

/// Epochs that a long loan may run before late fees accrue.
pub const LONG_LOAN_DURATION: u64 = 90;

/// Percentage of the collateral that each late epoch costs.
pub const LATE_FEE: u64 = 1;

/// The class of a loan, with the epoch in which the loan started.
#[allow(non_camel_case_types)]
#[derive(Clone, Copy, Debug, PartialEq, Eq, Structural)]
pub enum LoanType {
    /// A loan of 15 epochs.
    SHORT(u64),
    /// A loan of 45 epochs.
    MEDIUM(u64),
    /// A loan of 90 epochs.
    LONG(u64),
}

impl Default for LoanType {
    fn default() -> (loan_type: Self)
        ensures
            loan_type == LoanType::SHORT(0),
    {
        LoanType::SHORT(0)
    }
}

impl LoanType {
    /// The epoch in which the loan started.
    pub open spec fn spec_epoch(&self) -> u64 {
        match *self {
            LoanType::SHORT(epoch) => epoch,
            LoanType::MEDIUM(epoch) => epoch,
            LoanType::LONG(epoch) => epoch,
        }
    }

    /// Most that the loan may borrow, as a percentage of its collateral.
    pub open spec fn spec_max_ratio(&self) -> u64 {
        match *self {
            LoanType::SHORT(_) => SHORT_MAX_RATIO,
            LoanType::MEDIUM(_) => MEDIUM_MAX_RATIO,
            LoanType::LONG(_) => LONG_MAX_RATIO,
        }
    }

    /// Epochs that the loan may run before late fees accrue.
    pub open spec fn spec_duration(&self) -> u64 {
        match *self {
            LoanType::SHORT(_) => SHORT_LOAN_DURATION,
            LoanType::MEDIUM(_) => MEDIUM_LOAN_DURATION,
            LoanType::LONG(_) => LONG_LOAN_DURATION,
        }
    }

    /// Epochs from the start of the loan to `current_epoch`; none where
    /// `current_epoch` lies before the start.
    pub open spec fn epochs_elapsed(&self, current_epoch: u64) -> int {
        if current_epoch >= self.spec_epoch() {
            current_epoch - self.spec_epoch()
        } else {
            0
        }
    }

    /// Epochs by which the loan has outrun its duration at `current_epoch`.
    pub open spec fn late_epochs(&self, current_epoch: u64) -> int {
        if self.epochs_elapsed(current_epoch) <= self.spec_duration() {
            0
        } else {
            self.epochs_elapsed(current_epoch) - self.spec_duration()
        }
    }

    /// Percentage of the collateral that is left at `current_epoch`: a
    /// hundred less `LATE_FEE` for each late epoch, and never less than
    /// nothing.
    pub open spec fn fee_percentage(&self, current_epoch: u64) -> int {
        if self.late_epochs(current_epoch) * LATE_FEE >= 100 {
            0
        } else {
            100 - self.late_epochs(current_epoch) * LATE_FEE
        }
    }

    /// The loan class that an instruction names by `code`, started at
    /// `epoch`.
    pub open spec fn spec_from_code(code: u8, epoch: u64) -> Result<LoanType, LendingError> {
        if code == 0 {
            Ok(LoanType::SHORT(epoch))
        } else if code == 1 {
            Ok(LoanType::MEDIUM(epoch))
        } else if code == 2 {
            Ok(LoanType::LONG(epoch))
        } else {
            Err(LendingError::InvalidLoanType)
        }
    }

    /// The epoch in which the loan started.
    #[verifier::when_used_as_spec(spec_epoch)]
    pub fn epoch(&self) -> (epoch: u64)
        ensures
            epoch == self.spec_epoch(),
    {
        match self {
            LoanType::SHORT(epoch) => *epoch,
            LoanType::MEDIUM(epoch) => *epoch,
            LoanType::LONG(epoch) => *epoch,
        }
    }

    /// Most that the loan may borrow, as a percentage of its collateral.
    #[verifier::when_used_as_spec(spec_max_ratio)]
    pub fn max_ratio(&self) -> (ratio: u64)
        ensures
            ratio == self.spec_max_ratio(),
    {
        match self {
            LoanType::SHORT(_) => SHORT_MAX_RATIO,
            LoanType::MEDIUM(_) => MEDIUM_MAX_RATIO,
            LoanType::LONG(_) => LONG_MAX_RATIO,
        }
    }

    /// Epochs that the loan may run before late fees accrue.
    #[verifier::when_used_as_spec(spec_duration)]
    pub fn duration(&self) -> (epochs: u64)
        ensures
            epochs == self.spec_duration(),
    {
        match self {
            LoanType::SHORT(_) => SHORT_LOAN_DURATION,
            LoanType::MEDIUM(_) => MEDIUM_LOAN_DURATION,
            LoanType::LONG(_) => LONG_LOAN_DURATION,
        }
    }

    /// The loan class that an instruction names by `code` (0 short, 1
    /// medium, 2 long), started at `epoch`; `InvalidLoanType` for any other
    /// code.
    #[verifier::when_used_as_spec(spec_from_code)]
    pub fn from_code(code: u8, epoch: u64) -> (loan_type: Result<LoanType, LendingError>)
        ensures
            loan_type == LoanType::spec_from_code(code, epoch),
    {
        match code {
            0 => Ok(LoanType::SHORT(epoch)),
            1 => Ok(LoanType::MEDIUM(epoch)),
            2 => Ok(LoanType::LONG(epoch)),
            _ => Err(LendingError::InvalidLoanType),
        }
    }

    /// What is left of the collateral never grows with time, and lies
    /// between nothing and all of it.
    pub proof fn lemma_fee_percentage_decays(&self, earlier: u64, later: u64)
        requires
            earlier <= later,
        ensures
            0 <= self.fee_percentage(later) <= self.fee_percentage(earlier) <= 100,
    {
    }

    /// Up to the end of the loan's duration nothing is taken, and one epoch
    /// later something is.
    pub proof fn lemma_fee_starts_after_duration(&self, current_epoch: u64)
        ensures
            self.epochs_elapsed(current_epoch) <= self.spec_duration() ==> self.fee_percentage(
                current_epoch,
            ) == 100,
            self.epochs_elapsed(current_epoch) > self.spec_duration() ==> self.fee_percentage(
                current_epoch,
            ) < 100,
    {
    }
}

} // verus!

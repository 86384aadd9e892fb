//! Fixed-point values scaled by 10^18.

use vstd::prelude::*;
use crate::error::LendingError;

verus! {

/// Collateral tokens are initially valued at this ratio to liquidity.
pub const INITIAL_COLLATERAL_RATIO: u64 = 1;

/// Version written into every account that the program initializes.
pub const PROGRAM_VERSION: u8 = 1;

/// Accounts are created zeroed, so an uninitialized one has version 0.
pub const UNINITIALIZED_VERSION: u8 = 0;

/// Number of decimal digits of precision.
pub const SCALE: usize = 18;

/// The fixed-point representation of one.
pub const WAD: u64 = 1_000_000_000_000_000_000;

/// The fixed-point representation of one half.
pub const HALF_WAD: u64 = 500_000_000_000_000_000;

/// The fixed-point representation of one percent.
pub const PERCENT_SCALER: u64 = 10_000_000_000_000_000;

/// An unsigned number `v` held as the integer `v * WAD`.
#[derive(Clone, Copy, Debug, PartialEq, Eq, Structural, PartialOrd, Ord)]
pub struct FixedPrecision(pub u128);

impl Default for FixedPrecision {
    fn default() -> (zero: Self)
        ensures
            zero.0 == 0,
    {
        FixedPrecision(0)
    }
}

impl FixedPrecision {
    /// The scaled integer nearest to the value, halves rounded up.
    pub open spec fn rounded(self) -> int {
        (self.0 + HALF_WAD) / (WAD as int)
    }

    /// The value whose scaled representation is `wad`.
    pub fn from_wad(wad: u64) -> (value: Self)
        ensures
            value.0 == wad,
    {
        FixedPrecision(wad as u128)
    }

    /// The scaled representation, where it fits in 64 bits.
    pub fn to_wad(&self) -> (wad: Result<u64, LendingError>)
        ensures
            self.0 <= u64::MAX ==> wad == Ok::<u64, LendingError>(self.0 as u64),
            self.0 > u64::MAX ==> wad == Err::<u64, LendingError>(LendingError::MathOverflow),
    {
        if self.0 <= u64::MAX as u128 {
            Ok(self.0 as u64)
        } else {
            Err(LendingError::MathOverflow)
        }
    }

    /// The value `percent * PERCENT_SCALER / 100`, rounded down.
    pub fn from_percent(percent: u8) -> (value: Self)
        ensures
            value.0 == (percent * PERCENT_SCALER) / 100,
    {
        let scaler: u128 = PERCENT_SCALER as u128;
        assert(percent * scaler <= 255 * scaler) by (nonlinear_arith)
            requires
                percent <= 255,
        ;
        FixedPrecision(((percent as u128) * scaler) / 100)
    }

    /// The sum; `MathOverflow` exactly when it does not fit in 128 bits.
    pub fn checked_add(&self, other: &Self) -> (sum: Result<Self, LendingError>)
        ensures
            self.0 + other.0 <= u128::MAX ==> sum == Ok::<Self, LendingError>(
                FixedPrecision((self.0 + other.0) as u128),
            ),
            self.0 + other.0 > u128::MAX ==> sum == Err::<Self, LendingError>(
                LendingError::MathOverflow,
            ),
    {
        match self.0.checked_add(other.0) {
            Some(v) => Ok(FixedPrecision(v)),
            None => Err(LendingError::MathOverflow),
        }
    }

    /// The difference; `MathOverflow` exactly when it would be negative.
    pub fn checked_sub(&self, other: &Self) -> (difference: Result<Self, LendingError>)
        ensures
            self.0 >= other.0 ==> difference == Ok::<Self, LendingError>(
                FixedPrecision((self.0 - other.0) as u128),
            ),
            self.0 < other.0 ==> difference == Err::<Self, LendingError>(
                LendingError::MathOverflow,
            ),
    {
        match self.0.checked_sub(other.0) {
            Some(v) => Ok(FixedPrecision(v)),
            None => Err(LendingError::MathOverflow),
        }
    }

    /// The product of the two values, rounded down; `MathOverflow` exactly
    /// when the product of the two representations does not fit in 128 bits.
    pub fn checked_mul(&self, other: &Self) -> (product: Result<Self, LendingError>)
        ensures
            self.0 * other.0 <= u128::MAX ==> product == Ok::<Self, LendingError>(
                FixedPrecision(((self.0 * other.0) / (WAD as int)) as u128),
            ),
            self.0 * other.0 > u128::MAX ==> product == Err::<Self, LendingError>(
                LendingError::MathOverflow,
            ),
    {
        match self.0.checked_mul(other.0) {
            Some(v) => Ok(FixedPrecision(v / (WAD as u128))),
            None => Err(LendingError::MathOverflow),
        }
    }

    /// The quotient of the two values, rounded down; `DivideByZero` exactly
    /// when `other` is zero, else `MathOverflow` exactly when
    /// `self.0 * WAD` does not fit in 128 bits.
    pub fn checked_div(&self, other: &Self) -> (quotient: Result<Self, LendingError>)
        ensures
            other.0 == 0 ==> quotient == Err::<Self, LendingError>(LendingError::DivideByZero),
            other.0 != 0 && self.0 * WAD > u128::MAX ==> quotient == Err::<Self, LendingError>(
                LendingError::MathOverflow,
            ),
            other.0 != 0 && self.0 * WAD <= u128::MAX ==> quotient == Ok::<Self, LendingError>(
                FixedPrecision(((self.0 * WAD) / (other.0 as int)) as u128),
            ),
    {
        if other.0 == 0 {
            return Err(LendingError::DivideByZero);
        }
        match self.0.checked_mul(WAD as u128) {
            Some(v) => {
                let q: u128 = v / other.0;
                Ok(FixedPrecision(q))
            },
            None => Err(LendingError::MathOverflow),
        }
    }

    /// The nearest whole number of scaled units, halves rounded up.
    pub fn round_u64(&self) -> (whole: u64)
        requires
            self.rounded() <= u64::MAX,
        ensures
            whole == self.rounded(),
    {
        ((self.0 + (HALF_WAD as u128)) / (WAD as u128)) as u64
    }

    /// As `round_u64`, with `MathOverflow` exactly when the rounded number
    /// does not fit in 64 bits.
    pub fn try_round_u64(&self) -> (whole: Result<u64, LendingError>)
        ensures
            self.rounded() <= u64::MAX ==> whole == Ok::<u64, LendingError>(self.rounded() as u64),
            self.rounded() > u64::MAX ==> whole == Err::<u64, LendingError>(
                LendingError::MathOverflow,
            ),
    {
        match self.0.checked_add(HALF_WAD as u128) {
            Some(v) => {
                let q: u128 = v / (WAD as u128);
                if q <= u64::MAX as u128 {
                    Ok(self.round_u64())
                } else {
                    Err(LendingError::MathOverflow)
                }
            },
            None => Err(LendingError::MathOverflow),
        }
    }
}

} // verus!

//! Failures reported by the lending operations.

use vstd::prelude::*;

verus! {

/// Every way in which a lending operation can fail.
///
/// An operation that returns one of these leaves the state it was given
/// untouched.
#[derive(Clone, Copy, Debug, PartialEq, Eq, Structural)]
pub enum LendingError {
    /// A fixed-point division by zero.
    DivideByZero,
    /// The stake account does not hold a delegated stake.
    WrongStakeStake,
    /// The reserve is stale and must be refreshed in the current slot.
    ReserveStale,
    /// The amount provided cannot be zero.
    InvalidAmount,
    /// The signer is not the owner of the lending market.
    OwnerMismatch,
    /// The account passed is not a reserve account.
    InvalidReserveAccount,
    /// The number of auxiliary accounts does not match what the state calls for.
    WrongRemainingAccountSchema,
    /// The position used is incorrect.
    PositionNotFound,
    /// The last update used is invalid.
    InvalidLastUpdate,
    /// The position used is invalid.
    InvalidPosition,
    /// The position is not liquidatable.
    NotLiquidatable,
    /// The lending market is not the one named by the reserve.
    LendingMarketMismatch,
    /// The loan type passed is invalid.
    InvalidLoanType,
    /// The collateral amount provided does not match the amount in the stake account.
    InvalidStakeAmount,
    /// Insufficient liquidity in the reserve to perform the action.
    InsufficientLiquidity,
    /// The obligation holds no position at all.
    ObligationPositionEmpty,
    /// The obligation holds no position for the given vote account.
    InvalidObligationPositionIndex,
    /// Insufficient collateral to decrease the deposit.
    InsufficientCollateral,
    /// The loan-to-value ratio after the change would be too high.
    LoanToValueTooHigh,
    /// The loan type requested differs from the one the position already has.
    LoanTypeMismatch,
    /// An arithmetic result left the range of its type.
    MathOverflow,
    /// The account's bytes do not decode as a stake state.
    InvalidAccountData,
}

/// An operation on a state is all-or-nothing: where `outcome` is a next state
/// and a value, the state `after` is that next state and `returned` holds the
/// value; where `outcome` is a failure, `returned` is that failure and the
/// state is as it was `before`.
pub open spec fn transacts<S, T>(
    before: S,
    after: S,
    returned: Result<T, LendingError>,
    outcome: Result<(S, T), LendingError>,
) -> bool {
    match outcome {
        Ok((next, value)) => after == next && returned == Ok::<T, LendingError>(value),
        Err(e) => after == before && returned == Err::<T, LendingError>(e),
    }
}

} // verus!

//! Accounting core of a staked-collateral lending protocol.
//!
//! Lenders pay liquidity into a reserve and hold pool tokens for it;
//! borrowers deposit stake as collateral and borrow against it. A reserve
//! keeps the books of one vote account: a liquidity pool, a collateral pool,
//! and the epoch up to which its stake has been rolled forward. An
//! obligation keeps a borrower's positions, one for each vote account.
//!
//! Every operation either succeeds as a whole or fails and leaves what it
//! was given as it was.

pub mod actions;
pub mod borrowing;
pub mod collateral;
pub mod epoch;
pub mod error;
pub mod key;
pub mod last_update;
pub mod lending_market;
pub mod liquidity;
pub mod loan;
pub mod obligation;
pub mod position;
pub mod reserve;
pub mod settlement;
pub mod shares;
pub mod srl;
pub mod stake;
pub mod wad;

pub use actions::{DepositLiquidityArgs, RedeemLiquidityArgs, SetLendingMarketOwnerArgs};
pub use borrowing::{BorrowLiquidityArgs, BorrowPlan};
pub use collateral::{NewReserveCollateralParams, ReserveCollateral};
pub use epoch::{EpochObservation, EpochPlan};
pub use error::LendingError;
pub use key::AccountKey;
pub use last_update::LastUpdate;
pub use lending_market::{InitLendingMarketParams, LendingMarket};
pub use liquidity::{NewReserveLiquidityParams, ReserveLiquidity};
pub use loan::LoanType;
pub use obligation::{InitObligationParams, Obligation};
pub use position::{InitObligationPositionParams, ObligationPosition};
pub use reserve::{InitReserveParams, Reserve};
pub use settlement::RepayPlan;
pub use srl::{
    SrlEpochObservation, SrlEpochPlan, SrlInitLendingMarketParams, SrlInitReserveParams,
    SrlLendingMarket, SrlReserve, SrlReserveLiquidity,
};
pub use wad::FixedPrecision;

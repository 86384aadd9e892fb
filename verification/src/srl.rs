//! The single-market program: a lending market bound to one vote account,
//! and a reserve with a liquidity pool alone, whose debt is kept scaled by
//! `WAD`.

use vstd::prelude::*;
use crate::actions::{DepositLiquidityArgs, RedeemLiquidityArgs};
use crate::epoch::{
    activation_threshold,
    spec_activation_threshold,
    spec_tranche_is_active,
    tranche_is_active,
};
use crate::error::{transacts, LendingError};
use crate::key::AccountKey;
use crate::last_update::LastUpdate;
use crate::liquidity::NewReserveLiquidityParams;
use crate::shares::{
    lemma_product_fits,
    lemma_round_trip_never_gains,
    shares_for_deposit,
    underlying_for_shares,
};
use crate::stake::{
    decode_stake_state,
    decoded_stake_amount,
    decoded_stake_state,
    spec_decoded_stake_amount,
    StakeState,
};
use crate::wad::{PROGRAM_VERSION, UNINITIALIZED_VERSION, WAD};

verus! {

/// What a new single lending market starts with.
#[derive(Clone, Copy, Debug)]
pub struct SrlInitLendingMarketParams {
    /// Bump seed of the market's derived authority.
    pub bump_seed: u8,
    /// Owner, who alone may add reserves.
    pub owner: AccountKey,
    /// Vote account of the validator that runs the market.
    pub vote_account: AccountKey,
}

/// A lending market bound to one vote account.
#[derive(Clone, Copy, Debug)]
pub struct SrlLendingMarket {
    /// Version of the record; `UNINITIALIZED_VERSION` until initialized.
    pub version: u8,
    /// Bump seed of the market's derived authority.
    pub bump_seed: u8,
    /// Owner, who alone may add reserves.
    pub owner: AccountKey,
    /// Vote account of the validator that runs the market.
    pub vote_account: AccountKey,
}

impl Default for SrlLendingMarket {
    fn default() -> (market: Self)
        ensures
            market.version == UNINITIALIZED_VERSION,
            market.bump_seed == 0,
            market.owner.is_zero(),
            market.vote_account.is_zero(),
    {
        SrlLendingMarket {
            version: UNINITIALIZED_VERSION,
            bump_seed: 0,
            owner: AccountKey::default(),
            vote_account: AccountKey::default(),
        }
    }
}

impl SrlLendingMarket {
    /// The initialized market that `params` describes.
    pub open spec fn spec_new(params: SrlInitLendingMarketParams) -> SrlLendingMarket {
        SrlLendingMarket {
            version: PROGRAM_VERSION,
            bump_seed: params.bump_seed,
            owner: params.owner,
            vote_account: params.vote_account,
        }
    }

    /// A new, initialized market.
    pub fn new(params: SrlInitLendingMarketParams) -> (market: Self)
        ensures
            market == SrlLendingMarket::spec_new(params),
    {
        let mut lending_market = SrlLendingMarket::default();
        lending_market.init(params);
        lending_market
    }

    /// Initializes the market with what `params` names.
    pub fn init(&mut self, params: SrlInitLendingMarketParams)
        ensures
            *final(self) == SrlLendingMarket::spec_new(params),
    {
        self.version = PROGRAM_VERSION;
        self.bump_seed = params.bump_seed;
        self.owner = params.owner;
        self.vote_account = params.vote_account;
    }

    /// Whether the market has been initialized.
    pub fn is_initialized(&self) -> (initialized: bool)
        ensures
            initialized == (self.version != UNINITIALIZED_VERSION),
    {
        self.version != UNINITIALIZED_VERSION
    }

    /// Hands the market to `new_owner`.
    pub fn set_owner(&mut self, new_owner: AccountKey)
        ensures
            *final(self) == (SrlLendingMarket { owner: new_owner, ..*old(self) }),
    {
        self.owner = new_owner;
    }
}

/// A liquidity pool whose debt is kept scaled by `WAD`.
#[derive(Clone, Copy, Debug)]
pub struct SrlReserveLiquidity {
    /// Mint of the pool tokens.
    pub mint_pubkey: AccountKey,
    /// Pool tokens outstanding.
    pub mint_total_supply: u64,
    /// Vault that holds the liquidity.
    pub vault_pubkey: AccountKey,
    /// Liquidity at hand.
    pub available_amount: u64,
    /// Liquidity lent out, scaled by `WAD`.
    pub borrowed_amount_wads: u128,
    /// Borrow rate compounded over time, scaled by `WAD`.
    pub cumulative_borrow_rate_wads: u128,
}

impl Default for SrlReserveLiquidity {
    fn default() -> (liquidity: Self)
        ensures
            liquidity.mint_pubkey.is_zero(),
            liquidity.vault_pubkey.is_zero(),
            liquidity.mint_total_supply == 0,
            liquidity.available_amount == 0,
            liquidity.borrowed_amount_wads == 0,
            liquidity.cumulative_borrow_rate_wads == 0,
    {
        SrlReserveLiquidity {
            mint_pubkey: AccountKey::default(),
            mint_total_supply: 0,
            vault_pubkey: AccountKey::default(),
            available_amount: 0,
            borrowed_amount_wads: 0,
            cumulative_borrow_rate_wads: 0,
        }
    }
}

impl SrlReserveLiquidity {
    /// The empty pool that `params` describes.
    pub open spec fn spec_new(params: NewReserveLiquidityParams) -> SrlReserveLiquidity {
        SrlReserveLiquidity {
            mint_pubkey: params.mint_pubkey,
            mint_total_supply: 0,
            vault_pubkey: params.vault_pubkey,
            available_amount: 0,
            borrowed_amount_wads: 0,
            cumulative_borrow_rate_wads: WAD as u128,
        }
    }

    /// What the pool counts as its total: the liquidity at hand and the
    /// scaled debt together.
    pub open spec fn total(&self) -> int {
        self.available_amount + self.borrowed_amount_wads
    }

    /// The pool after `mint_amount` tokens are minted.
    pub open spec fn minted(&self, mint_amount: u64) -> Result<
        (SrlReserveLiquidity, ()),
        LendingError,
    > {
        if self.mint_total_supply + mint_amount > u64::MAX {
            Err(LendingError::MathOverflow)
        } else {
            Ok(
                (
                    SrlReserveLiquidity {
                        mint_total_supply: (self.mint_total_supply + mint_amount) as u64,
                        ..*self
                    },
                    (),
                ),
            )
        }
    }

    /// The pool after `burn_amount` tokens are burned.
    pub open spec fn burned(&self, burn_amount: u64) -> Result<
        (SrlReserveLiquidity, ()),
        LendingError,
    > {
        if self.mint_total_supply < burn_amount {
            Err(LendingError::MathOverflow)
        } else {
            Ok(
                (
                    SrlReserveLiquidity {
                        mint_total_supply: (self.mint_total_supply - burn_amount) as u64,
                        ..*self
                    },
                    (),
                ),
            )
        }
    }

    /// The pool after `liquidity_amount` is paid in.
    pub open spec fn deposited(&self, liquidity_amount: u64) -> Result<
        (SrlReserveLiquidity, ()),
        LendingError,
    > {
        if self.available_amount + liquidity_amount > u64::MAX {
            Err(LendingError::MathOverflow)
        } else {
            Ok(
                (
                    SrlReserveLiquidity {
                        available_amount: (self.available_amount + liquidity_amount) as u64,
                        ..*self
                    },
                    (),
                ),
            )
        }
    }

    /// The pool after `liquidity_amount` is paid out.
    pub open spec fn withdrawn(&self, liquidity_amount: u64) -> Result<
        (SrlReserveLiquidity, ()),
        LendingError,
    > {
        if liquidity_amount > self.available_amount {
            Err(LendingError::InsufficientLiquidity)
        } else {
            Ok(
                (
                    SrlReserveLiquidity {
                        available_amount: (self.available_amount - liquidity_amount) as u64,
                        ..*self
                    },
                    (),
                ),
            )
        }
    }

    /// The pool after `borrow_amount` is lent out: the debt grows by
    /// `borrow_amount * WAD`.
    pub open spec fn borrowed(&self, borrow_amount: u64) -> Result<
        (SrlReserveLiquidity, ()),
        LendingError,
    > {
        if borrow_amount > self.available_amount {
            Err(LendingError::InsufficientLiquidity)
        } else if self.borrowed_amount_wads + borrow_amount * WAD > u128::MAX {
            Err(LendingError::MathOverflow)
        } else {
            Ok(
                (
                    SrlReserveLiquidity {
                        available_amount: (self.available_amount - borrow_amount) as u64,
                        borrowed_amount_wads: (self.borrowed_amount_wads + borrow_amount
                            * WAD) as u128,
                        ..*self
                    },
                    (),
                ),
            )
        }
    }

    /// The pool after `repay_amount` comes back and `settle_amount_wads` of
    /// the scaled debt is settled.
    pub open spec fn repaid(&self, repay_amount: u64, settle_amount_wads: u128) -> Result<
        (SrlReserveLiquidity, ()),
        LendingError,
    > {
        if self.available_amount + repay_amount > u64::MAX || self.borrowed_amount_wads
            < settle_amount_wads {
            Err(LendingError::MathOverflow)
        } else {
            Ok(
                (
                    SrlReserveLiquidity {
                        available_amount: (self.available_amount + repay_amount) as u64,
                        borrowed_amount_wads: (self.borrowed_amount_wads
                            - settle_amount_wads) as u128,
                        ..*self
                    },
                    (),
                ),
            )
        }
    }

    /// A new, empty pool.
    pub fn new(params: NewReserveLiquidityParams) -> (liquidity: Self)
        ensures
            liquidity == SrlReserveLiquidity::spec_new(params),
    {
        SrlReserveLiquidity {
            mint_pubkey: params.mint_pubkey,
            mint_total_supply: 0,
            vault_pubkey: params.vault_pubkey,
            available_amount: 0,
            borrowed_amount_wads: 0,
            cumulative_borrow_rate_wads: WAD as u128,
        }
    }

    /// The liquidity at hand and the scaled debt together; `MathOverflow`
    /// exactly when the sum leaves 128 bits.
    pub fn total_liquidity(&self) -> (total: Result<u128, LendingError>)
        ensures
            self.total() <= u128::MAX ==> total == Ok::<u128, LendingError>(self.total() as u128),
            self.total() > u128::MAX ==> total == Err::<u128, LendingError>(
                LendingError::MathOverflow,
            ),
    {
        match (self.available_amount as u128).checked_add(self.borrowed_amount_wads) {
            Some(total) => Ok(total),
            None => Err(LendingError::MathOverflow),
        }
    }

    /// Adds minted tokens to the supply; `MathOverflow` exactly when the
    /// supply would leave 64 bits.
    pub fn mint(&mut self, mint_amount: u64) -> (done: Result<(), LendingError>)
        ensures
            transacts(*old(self), *final(self), done, old(self).minted(mint_amount)),
    {
        match self.mint_total_supply.checked_add(mint_amount) {
            Some(supply) => {
                self.mint_total_supply = supply;
                Ok(())
            },
            None => Err(LendingError::MathOverflow),
        }
    }

    /// Takes burned tokens off the supply; `MathOverflow` exactly when more
    /// would be burned than are outstanding.
    pub fn burn(&mut self, burn_amount: u64) -> (done: Result<(), LendingError>)
        ensures
            transacts(*old(self), *final(self), done, old(self).burned(burn_amount)),
    {
        match self.mint_total_supply.checked_sub(burn_amount) {
            Some(supply) => {
                self.mint_total_supply = supply;
                Ok(())
            },
            None => Err(LendingError::MathOverflow),
        }
    }

    /// Adds to the liquidity at hand; `MathOverflow` exactly when it would
    /// leave 64 bits.
    pub fn deposit(&mut self, liquidity_amount: u64) -> (done: Result<(), LendingError>)
        ensures
            transacts(*old(self), *final(self), done, old(self).deposited(liquidity_amount)),
    {
        match self.available_amount.checked_add(liquidity_amount) {
            Some(available) => {
                self.available_amount = available;
                Ok(())
            },
            None => Err(LendingError::MathOverflow),
        }
    }

    /// Takes from the liquidity at hand; `InsufficientLiquidity` exactly
    /// when more is asked than is at hand.
    pub fn withdraw(&mut self, liquidity_amount: u64) -> (done: Result<(), LendingError>)
        ensures
            transacts(*old(self), *final(self), done, old(self).withdrawn(liquidity_amount)),
    {
        if liquidity_amount > self.available_amount {
            return Err(LendingError::InsufficientLiquidity);
        }
        self.available_amount = self.available_amount - liquidity_amount;
        Ok(())
    }

    /// Moves liquidity from at hand into the scaled debt;
    /// `InsufficientLiquidity` where more is asked than is at hand, else
    /// `MathOverflow` where the scaled debt would leave 128 bits.
    pub fn borrow(&mut self, borrow_amount: u64) -> (done: Result<(), LendingError>)
        ensures
            transacts(*old(self), *final(self), done, old(self).borrowed(borrow_amount)),
    {
        if borrow_amount > self.available_amount {
            return Err(LendingError::InsufficientLiquidity);
        }
        proof {
            lemma_product_fits(borrow_amount, WAD);
        }
        let scaled: u128 = (borrow_amount as u128) * (WAD as u128);
        let borrowed = match self.borrowed_amount_wads.checked_add(scaled) {
            Some(v) => v,
            None => { return Err(LendingError::MathOverflow); },
        };
        self.available_amount = self.available_amount - borrow_amount;
        self.borrowed_amount_wads = borrowed;
        Ok(())
    }

    /// Takes `repay_amount` back and settles `settle_amount_wads` of the
    /// scaled debt; `MathOverflow` exactly when the liquidity at hand would
    /// leave 64 bits or more would be settled than is owed.
    pub fn repay(&mut self, repay_amount: u64, settle_amount_wads: u128) -> (done: Result<
        (),
        LendingError,
    >)
        ensures
            transacts(
                *old(self),
                *final(self),
                done,
                old(self).repaid(repay_amount, settle_amount_wads),
            ),
    {
        let available = match self.available_amount.checked_add(repay_amount) {
            Some(v) => v,
            None => { return Err(LendingError::MathOverflow); },
        };
        let borrowed = match self.borrowed_amount_wads.checked_sub(settle_amount_wads) {
            Some(v) => v,
            None => { return Err(LendingError::MathOverflow); },
        };
        self.available_amount = available;
        self.borrowed_amount_wads = borrowed;
        Ok(())
    }
}

/// What a new single-market reserve starts with.
#[derive(Clone, Copy, Debug)]
pub struct SrlInitReserveParams {
    /// Epoch in which the reserve is created.
    pub current_epoch: u64,
    /// Slot in which the reserve is created.
    pub current_slot: u64,
    /// Lending market that the reserve belongs to.
    pub lending_market: AccountKey,
    /// Liquidity pool.
    pub liquidity: SrlReserveLiquidity,
}

/// The reserve of a single lending market: a liquidity pool, and the epoch
/// and slot up to which it is accounted.
#[derive(Clone, Copy, Debug)]
pub struct SrlReserve {
    /// Version of the record.
    pub version: u8,
    /// Epoch up to which the stake has been rolled forward.
    pub last_epoch: u64,
    /// Slot of the last refresh, and the mark that forces a new one.
    pub last_update: LastUpdate,
    /// Lending market that the reserve belongs to.
    pub lending_market: AccountKey,
    /// Liquidity pool.
    pub liquidity: SrlReserveLiquidity,
}

/// What a refresh of a single-market reserve reads from the ledger.
#[derive(Clone, Copy, Debug)]
pub struct SrlEpochObservation {
    /// Slot of the refresh.
    pub current_slot: u64,
    /// Epoch of the refresh.
    pub current_epoch: u64,
    /// Least delegation that the stake program reports.
    pub reported_minimum_delegation: u64,
    /// Balance that keeps a stake account exempt from rent.
    pub stake_rent: u64,
    /// What the market's stake account holds.
    pub market_stake: Option<StakeState>,
    /// What the account of the tranche that began activating at the
    /// reserve's last refresh into a new epoch holds.
    pub merging_stake: Option<StakeState>,
}

/// What a refresh of a single-market reserve asks the caller to do, in this
/// order.
#[derive(Clone, Copy, Debug, PartialEq, Eq, Structural)]
pub struct SrlEpochPlan {
    /// Carve this much out of the market's stake account and delegate it as
    /// a new tranche.
    pub initialize_stake: Option<u64>,
    /// Merge the tranche that has become active into the market's stake.
    pub merge_stake: bool,
}

impl Default for SrlReserve {
    fn default() -> (reserve: Self)
        ensures
            reserve.version == 0,
            reserve.last_epoch == 0,
            reserve.last_update == (LastUpdate { slot: 0, stale: false }),
            reserve.lending_market.is_zero(),
            reserve.liquidity.mint_pubkey.is_zero(),
            reserve.liquidity.vault_pubkey.is_zero(),
            reserve.liquidity.mint_total_supply == 0,
            reserve.liquidity.available_amount == 0,
            reserve.liquidity.borrowed_amount_wads == 0,
            reserve.liquidity.cumulative_borrow_rate_wads == 0,
    {
        SrlReserve {
            version: 0,
            last_epoch: 0,
            last_update: LastUpdate::default(),
            lending_market: AccountKey::default(),
            liquidity: SrlReserveLiquidity::default(),
        }
    }
}

/// Where a product of a 64-bit number leaves 128 bits, its quotient by a
/// 64-bit number leaves 64 bits.
proof fn lemma_quotient_of_overflow(product: int, divisor: int)
    requires
        product > u128::MAX,
        0 < divisor <= u64::MAX,
    ensures
        product / divisor > u64::MAX,
{
    assert(product >= divisor * 0x1_0000_0000_0000_0000) by (nonlinear_arith)
        requires
            product >= 0x1_0000_0000_0000_0000_0000_0000_0000_0000,
            0 < divisor <= 0xffff_ffff_ffff_ffff,
    ;
    assert(product / divisor >= 0x1_0000_0000_0000_0000) by (nonlinear_arith)
        requires
            product >= divisor * 0x1_0000_0000_0000_0000,
            0 < divisor,
    ;
}

impl SrlReserve {
    /// The reserve that `params` describes: accounted up to the current
    /// epoch and slot, and stale until the first refresh.
    pub open spec fn spec_new(params: SrlInitReserveParams) -> SrlReserve {
        SrlReserve {
            version: PROGRAM_VERSION,
            last_epoch: params.current_epoch,
            last_update: LastUpdate { slot: params.current_slot, stale: true },
            lending_market: params.lending_market,
            liquidity: params.liquidity,
        }
    }

    /// The reserve with the mark set that forces a refresh.
    pub open spec fn marked_stale(&self) -> SrlReserve {
        SrlReserve {
            last_update: LastUpdate { slot: self.last_update.slot, stale: true },
            ..*self
        }
    }

    /// Whether the reserve may be acted upon at `slot`: `MathOverflow` where
    /// `slot` lies before its last refresh, `ReserveStale` where it is
    /// stale.
    pub open spec fn spec_require_fresh(&self, slot: u64) -> Result<(), LendingError> {
        match self.last_update.spec_is_stale(slot) {
            Err(e) => Err(e),
            Ok(stale) => if stale {
                Err(LendingError::ReserveStale)
            } else {
                Ok(())
            },
        }
    }

    /// Epochs from the one the reserve is accounted up to, to `epoch`;
    /// `MathOverflow` where `epoch` lies before it.
    pub open spec fn spec_epoch_elapsed(&self, epoch: u64) -> Result<u64, LendingError> {
        if epoch < self.last_epoch {
            Err(LendingError::MathOverflow)
        } else {
            Ok((epoch - self.last_epoch) as u64)
        }
    }

    /// The reserve after `liquidity_amount` is paid in, with the pool tokens
    /// minted for it.
    pub open spec fn deposited(&self, liquidity_amount: u64) -> Result<
        (SrlReserve, u64),
        LendingError,
    > {
        if self.liquidity.total() > u128::MAX {
            Err(LendingError::MathOverflow)
        } else {
            let minted = shares_for_deposit(
                liquidity_amount as int,
                self.liquidity.total(),
                self.liquidity.mint_total_supply as int,
            );
            if minted > u64::MAX {
                Err(LendingError::MathOverflow)
            } else {
                match self.liquidity.deposited(liquidity_amount) {
                    Err(e) => Err(e),
                    Ok((paid, _)) => match paid.minted(minted as u64) {
                        Err(e) => Err(e),
                        Ok((liquidity, _)) => Ok(
                            (SrlReserve { liquidity, ..*self }, minted as u64),
                        ),
                    },
                }
            }
        }
    }

    /// The reserve after `token_amount` pool tokens are redeemed, with the
    /// liquidity paid out for them.
    pub open spec fn redeemed(&self, token_amount: u64) -> Result<(SrlReserve, u64), LendingError> {
        if self.liquidity.total() > u128::MAX {
            Err(LendingError::MathOverflow)
        } else {
            let paid = underlying_for_shares(
                token_amount as int,
                self.liquidity.total(),
                self.liquidity.mint_total_supply as int,
            );
            if paid > u64::MAX {
                Err(LendingError::MathOverflow)
            } else {
                match self.liquidity.withdrawn(paid as u64) {
                    Err(e) => Err(e),
                    Ok((left, _)) => match left.burned(token_amount) {
                        Err(e) => Err(e),
                        Ok((liquidity, _)) => Ok((SrlReserve { liquidity, ..*self }, paid as u64)),
                    },
                }
            }
        }
    }

    /// The reserve after a deposit of liquidity at `current_slot`, with the
    /// pool tokens to mint for it: the reserve must be fresh, and is stale
    /// afterwards.
    pub open spec fn liquidity_deposited_at(&self, current_slot: u64, args: DepositLiquidityArgs) -> Result<
        (SrlReserve, u64),
        LendingError,
    > {
        match self.spec_require_fresh(current_slot) {
            Err(e) => Err(e),
            Ok(_) => match self.deposited(args.liquidity_amount) {
                Err(e) => Err(e),
                Ok((paid, minted)) => Ok((paid.marked_stale(), minted)),
            },
        }
    }

    /// The reserve after a redemption of pool tokens at `current_slot`, with
    /// the liquidity to pay out for them: at least one token must be
    /// redeemed (`InvalidAmount`), the reserve must be fresh, and is stale
    /// afterwards.
    pub open spec fn liquidity_redeemed_at(&self, current_slot: u64, args: RedeemLiquidityArgs) -> Result<
        (SrlReserve, u64),
        LendingError,
    > {
        if args.token_amount == 0 {
            Err(LendingError::InvalidAmount)
        } else {
            match self.spec_require_fresh(current_slot) {
                Err(e) => Err(e),
                Ok(_) => match self.redeemed(args.token_amount) {
                    Err(e) => Err(e),
                    Ok((left, paid)) => Ok((left.marked_stale(), paid)),
                },
            }
        }
    }

    /// The reserve after a refresh that saw `seen`, and what the refresh
    /// asks for.
    ///
    /// The slot is recorded in any case. Within the epoch that the reserve
    /// is accounted up to, nothing else happens. In a later epoch the
    /// reserve is brought up to that epoch, and
    /// - where the market's stake account delegates more than the
    ///   activation threshold, what it delegates is carved out into a new
    ///   tranche;
    /// - the tranche that was activating is merged where it is active.
    ///
    /// `MathOverflow` where the epoch seen lies before the reserve's; in a
    /// later epoch `InvalidAccountData` or `WrongStakeStake` where the
    /// market's stake account holds no delegation.
    pub open spec fn epoch_refreshed(&self, seen: SrlEpochObservation) -> Result<
        (SrlReserve, SrlEpochPlan),
        LendingError,
    > {
        let refreshed = SrlReserve {
            last_update: LastUpdate { slot: seen.current_slot, stale: false },
            ..*self
        };
        if seen.current_epoch < self.last_epoch {
            Err(LendingError::MathOverflow)
        } else if seen.current_epoch == self.last_epoch {
            Ok((refreshed, SrlEpochPlan { initialize_stake: None, merge_stake: false }))
        } else {
            match spec_decoded_stake_amount(seen.market_stake) {
                Err(e) => Err(e),
                Ok(stake_amount) => Ok(
                    (
                        SrlReserve { last_epoch: seen.current_epoch, ..refreshed },
                        SrlEpochPlan {
                            initialize_stake: if stake_amount > spec_activation_threshold(
                                seen.stake_rent,
                                seen.reported_minimum_delegation,
                            ) {
                                Some(stake_amount)
                            } else {
                                None
                            },
                            merge_stake: spec_tranche_is_active(
                                seen.merging_stake,
                                seen.current_epoch,
                            ),
                        },
                    ),
                ),
            }
        }
    }

    /// A new reserve.
    pub fn new(params: SrlInitReserveParams) -> (reserve: Self)
        ensures
            reserve == SrlReserve::spec_new(params),
    {
        let mut reserve = SrlReserve::default();
        reserve.init(params);
        reserve
    }

    /// Initializes the reserve with what `params` names.
    pub fn init(&mut self, params: SrlInitReserveParams)
        ensures
            *final(self) == SrlReserve::spec_new(params),
    {
        self.version = PROGRAM_VERSION;
        self.last_epoch = params.current_epoch;
        self.last_update = LastUpdate::new(params.current_slot);
        self.lending_market = params.lending_market;
        self.liquidity = params.liquidity;
    }

    /// Epochs from the one the reserve is accounted up to, to `epoch`.
    #[verifier::when_used_as_spec(spec_epoch_elapsed)]
    pub fn epoch_elapsed(&self, epoch: u64) -> (elapsed: Result<u64, LendingError>)
        ensures
            elapsed == self.spec_epoch_elapsed(epoch),
    {
        match epoch.checked_sub(self.last_epoch) {
            Some(elapsed) => Ok(elapsed),
            None => Err(LendingError::MathOverflow),
        }
    }

    /// Sets the epoch that the reserve is accounted up to.
    pub fn update_epoch(&mut self, epoch: u64)
        ensures
            *final(self) == (SrlReserve { last_epoch: epoch, ..*old(self) }),
    {
        self.last_epoch = epoch;
    }

    /// Whether the reserve may be acted upon at `slot`.
    #[verifier::when_used_as_spec(spec_require_fresh)]
    pub fn require_fresh(&self, slot: u64) -> (fresh: Result<(), LendingError>)
        ensures
            fresh == self.spec_require_fresh(slot),
    {
        match self.last_update.is_stale(slot) {
            Err(e) => Err(e),
            Ok(stale) => if stale {
                Err(LendingError::ReserveStale)
            } else {
                Ok(())
            },
        }
    }

    /// Records a deposit of liquidity and returns the pool tokens to mint
    /// for it, at the pool's ratio before the deposit. `MathOverflow` where
    /// the pool's total leaves 128 bits, or the tokens, the liquidity at
    /// hand or the supply leaves 64 bits.
    pub fn deposit(&mut self, liquidity_amount: u64) -> (minted: Result<u64, LendingError>)
        ensures
            transacts(*old(self), *final(self), minted, old(self).deposited(liquidity_amount)),
    {
        let total_liquidity = match self.liquidity.total_liquidity() {
            Ok(total) => total,
            Err(e) => { return Err(e); },
        };
        let token_amount = match self.calculate_token_position(
            liquidity_amount,
            total_liquidity,
            self.liquidity.mint_total_supply,
        ) {
            Ok(tokens) => tokens,
            Err(e) => { return Err(e); },
        };
        let mut liquidity: SrlReserveLiquidity = self.liquidity;
        match liquidity.deposit(liquidity_amount) {
            Ok(_) => {},
            Err(e) => { return Err(e); },
        }
        match liquidity.mint(token_amount) {
            Ok(_) => {},
            Err(e) => { return Err(e); },
        }
        self.liquidity = liquidity;
        Ok(token_amount)
    }

    /// Records the redemption of pool tokens and returns the liquidity to
    /// pay out for them, at the pool's ratio before the redemption.
    /// `MathOverflow` where the pool's total leaves 128 bits or the payout
    /// leaves 64 bits; else `InsufficientLiquidity` where the payout is more
    /// than is at hand; else `MathOverflow` where more tokens are redeemed
    /// than are outstanding.
    pub fn reedem(&mut self, token_amount: u64) -> (paid: Result<u64, LendingError>)
        ensures
            transacts(*old(self), *final(self), paid, old(self).redeemed(token_amount)),
    {
        let total_liquidity = match self.liquidity.total_liquidity() {
            Ok(total) => total,
            Err(e) => { return Err(e); },
        };
        let liquidity_amount = match self.calculate_liquidity_position(
            token_amount,
            total_liquidity,
            self.liquidity.mint_total_supply,
        ) {
            Ok(amount) => amount,
            Err(e) => { return Err(e); },
        };
        let mut liquidity: SrlReserveLiquidity = self.liquidity;
        match liquidity.withdraw(liquidity_amount) {
            Ok(_) => {},
            Err(e) => { return Err(e); },
        }
        match liquidity.burn(token_amount) {
            Ok(_) => {},
            Err(e) => { return Err(e); },
        }
        self.liquidity = liquidity;
        Ok(liquidity_amount)
    }

    /// Pool tokens to mint for `liquidity_deposit` paid into a pool of
    /// `total_liquidity` against `total_token_supply` tokens: one for one
    /// into an empty pool, else in proportion, rounded down;
    /// `MathOverflow` exactly when that number leaves 64 bits.
    pub fn calculate_token_position(
        &self,
        liquidity_deposit: u64,
        total_liquidity: u128,
        total_token_supply: u64,
    ) -> (minted: Result<u64, LendingError>)
        ensures
            shares_for_deposit(
                liquidity_deposit as int,
                total_liquidity as int,
                total_token_supply as int,
            ) <= u64::MAX ==> minted == Ok::<u64, LendingError>(
                shares_for_deposit(
                    liquidity_deposit as int,
                    total_liquidity as int,
                    total_token_supply as int,
                ) as u64,
            ),
            shares_for_deposit(
                liquidity_deposit as int,
                total_liquidity as int,
                total_token_supply as int,
            ) > u64::MAX ==> minted == Err::<u64, LendingError>(LendingError::MathOverflow),
    {
        if total_liquidity == 0 || total_token_supply == 0 {
            return Ok(liquidity_deposit);
        }
        proof {
            lemma_product_fits(liquidity_deposit, total_token_supply);
        }
        let numerator: u128 = (liquidity_deposit as u128) * (total_token_supply as u128);
        let quotient: u128 = numerator / total_liquidity;
        if quotient <= u64::MAX as u128 {
            Ok(quotient as u64)
        } else {
            Err(LendingError::MathOverflow)
        }
    }

    /// Liquidity to pay out for `token_to_burn` tokens of a pool of
    /// `total_liquidity` against `total_token_supply` tokens: nothing from
    /// an empty pool, else in proportion, rounded down; `MathOverflow`
    /// exactly when that amount leaves 64 bits.
    pub fn calculate_liquidity_position(
        &self,
        token_to_burn: u64,
        total_liquidity: u128,
        total_token_supply: u64,
    ) -> (paid: Result<u64, LendingError>)
        ensures
            underlying_for_shares(
                token_to_burn as int,
                total_liquidity as int,
                total_token_supply as int,
            ) <= u64::MAX ==> paid == Ok::<u64, LendingError>(
                underlying_for_shares(
                    token_to_burn as int,
                    total_liquidity as int,
                    total_token_supply as int,
                ) as u64,
            ),
            underlying_for_shares(
                token_to_burn as int,
                total_liquidity as int,
                total_token_supply as int,
            ) > u64::MAX ==> paid == Err::<u64, LendingError>(LendingError::MathOverflow),
    {
        if total_liquidity == 0 || total_token_supply == 0 {
            return Ok(0);
        }
        match (token_to_burn as u128).checked_mul(total_liquidity) {
            Some(numerator) => {
                let quotient: u128 = numerator / (total_token_supply as u128);
                if quotient <= u64::MAX as u128 {
                    Ok(quotient as u64)
                } else {
                    Err(LendingError::MathOverflow)
                }
            },
            None => {
                proof {
                    lemma_quotient_of_overflow(
                        token_to_burn * total_liquidity,
                        total_token_supply as int,
                    );
                }
                Err(LendingError::MathOverflow)
            },
        }
    }

    /// Deposits liquidity into a reserve that is fresh at `current_slot`,
    /// marks the reserve stale, and returns the pool tokens to mint.
    pub fn deposit_reserve_liquidity(&mut self, current_slot: u64, args: DepositLiquidityArgs) -> (minted:
        Result<u64, LendingError>)
        ensures
            transacts(
                *old(self),
                *final(self),
                minted,
                old(self).liquidity_deposited_at(current_slot, args),
            ),
    {
        match self.require_fresh(current_slot) {
            Ok(_) => {},
            Err(e) => { return Err(e); },
        }
        let token_amount = match self.deposit(args.liquidity_amount) {
            Ok(tokens) => tokens,
            Err(e) => { return Err(e); },
        };
        self.last_update.mark_stale();
        Ok(token_amount)
    }

    /// Redeems pool tokens from a reserve that is fresh at `current_slot`,
    /// marks the reserve stale, and returns the liquidity to pay out.
    pub fn redeem_reserve_liquidity(&mut self, current_slot: u64, args: RedeemLiquidityArgs) -> (paid:
        Result<u64, LendingError>)
        ensures
            transacts(
                *old(self),
                *final(self),
                paid,
                old(self).liquidity_redeemed_at(current_slot, args),
            ),
    {
        if args.token_amount == 0 {
            return Err(LendingError::InvalidAmount);
        }
        match self.require_fresh(current_slot) {
            Ok(_) => {},
            Err(e) => { return Err(e); },
        }
        let liquidity_amount = match self.reedem(args.token_amount) {
            Ok(amount) => amount,
            Err(e) => { return Err(e); },
        };
        self.last_update.mark_stale();
        Ok(liquidity_amount)
    }

    /// Records a refresh at `slot`: the reserve may be acted upon in that
    /// slot.
    pub fn refresh_reserve(&mut self, slot: u64)
        ensures
            *final(self) == (SrlReserve {
                last_update: LastUpdate { slot, stale: false },
                ..*old(self)
            }),
    {
        self.last_update.update_slot(slot);
    }

    /// Refreshes the reserve with what was read from the ledger, and says
    /// what is to be done with the market's stake accounts.
    pub fn plan_epoch_refresh(&mut self, seen: &SrlEpochObservation) -> (plan: Result<
        SrlEpochPlan,
        LendingError,
    >)
        ensures
            transacts(*old(self), *final(self), plan, old(self).epoch_refreshed(*seen)),
    {
        let elapsed = match self.epoch_elapsed(seen.current_epoch) {
            Ok(elapsed) => elapsed,
            Err(e) => { return Err(e); },
        };
        if elapsed == 0 {
            self.last_update.update_slot(seen.current_slot);
            return Ok(SrlEpochPlan { initialize_stake: None, merge_stake: false });
        }
        let threshold = activation_threshold(seen.stake_rent, seen.reported_minimum_delegation);
        let stake_amount = match decoded_stake_amount(seen.market_stake) {
            Ok(amount) => amount,
            Err(e) => { return Err(e); },
        };
        let plan = SrlEpochPlan {
            initialize_stake: if stake_amount > threshold {
                Some(stake_amount)
            } else {
                None
            },
            merge_stake: tranche_is_active(seen.merging_stake, seen.current_epoch),
        };
        self.last_update.update_slot(seen.current_slot);
        self.last_epoch = seen.current_epoch;
        Ok(plan)
    }

    /// Refreshes the reserve from the bytes of the market's two stake
    /// accounts and the rest of what the ledger shows.
    pub fn refresh_epoch(
        &mut self,
        current_slot: u64,
        current_epoch: u64,
        reported_minimum_delegation: u64,
        stake_rent: u64,
        market_stake_data: &[u8],
        merging_stake_data: &[u8],
    ) -> (plan: Result<SrlEpochPlan, LendingError>)
        ensures
            transacts(
                *old(self),
                *final(self),
                plan,
                old(self).epoch_refreshed(
                    SrlEpochObservation {
                        current_slot,
                        current_epoch,
                        reported_minimum_delegation,
                        stake_rent,
                        market_stake: decoded_stake_state(market_stake_data@),
                        merging_stake: decoded_stake_state(merging_stake_data@),
                    },
                ),
            ),
    {
        let seen = SrlEpochObservation {
            current_slot,
            current_epoch,
            reported_minimum_delegation,
            stake_rent,
            market_stake: decode_stake_state(market_stake_data),
            merging_stake: decode_stake_state(merging_stake_data),
        };
        self.plan_epoch_refresh(&seen)
    }

    /// Liquidity paid into a pool that is not empty, and redeemed at once
    /// for the tokens it minted, never pays out more than was paid in.
    pub proof fn lemma_deposit_then_redeem_never_gains(&self, liquidity_amount: u64)
        requires
            self.liquidity.total() > 0,
            self.liquidity.mint_total_supply > 0,
            self.deposited(liquidity_amount) is Ok,
            self.deposited(liquidity_amount)->Ok_0.0.redeemed(
                self.deposited(liquidity_amount)->Ok_0.1,
            ) is Ok,
        ensures
            self.deposited(liquidity_amount)->Ok_0.0.redeemed(
                self.deposited(liquidity_amount)->Ok_0.1,
            )->Ok_0.1 <= liquidity_amount,
    {
        lemma_round_trip_never_gains(
            liquidity_amount as int,
            self.liquidity.total(),
            self.liquidity.mint_total_supply as int,
        );
    }

    /// After a refresh, a second refresh in the same epoch asks for nothing
    /// and changes nothing but the slot of the last refresh.
    pub proof fn lemma_second_refresh_is_idle(&self, first: SrlEpochObservation, second: SrlEpochObservation)
        requires
            second.current_epoch == first.current_epoch,
            self.epoch_refreshed(first) is Ok,
        ensures
            self.epoch_refreshed(first)->Ok_0.0.last_epoch == first.current_epoch,
            self.epoch_refreshed(first)->Ok_0.0.epoch_refreshed(second) == Ok::<
                (SrlReserve, SrlEpochPlan),
                LendingError,
            >(
                (
                    SrlReserve {
                        last_update: LastUpdate { slot: second.current_slot, stale: false },
                        ..self.epoch_refreshed(first)->Ok_0.0
                    },
                    SrlEpochPlan { initialize_stake: None, merge_stake: false },
                ),
            ),
    {
    }
}

} // verus!

//! The ledger of one collateral source: its liquidity pool, its collateral
//! pool, and the epoch and slot up to which it is accounted.

use vstd::prelude::*;
use crate::collateral::ReserveCollateral;
use crate::error::{transacts, LendingError};
use crate::key::AccountKey;
use crate::last_update::LastUpdate;
use crate::liquidity::ReserveLiquidity;
use crate::shares::{
    calculate_deposit_amount,
    calculate_withdraw_amount,
    lemma_round_trip_never_gains,
    shares_for_deposit,
    underlying_for_shares,
};
use crate::wad::PROGRAM_VERSION;

verus! {

/// What a new reserve starts with.
#[derive(Clone, Copy, Debug)]
pub struct InitReserveParams {
    /// Epoch in which the reserve is created.
    pub current_epoch: u64,
    /// Slot in which the reserve is created.
    pub current_slot: u64,
    /// Lending market that the reserve belongs to.
    pub lending_market: AccountKey,
    /// Vote account that the collateral is staked with.
    pub vote_account: AccountKey,
    /// Liquidity pool.
    pub liquidity: ReserveLiquidity,
    /// Collateral pool.
    pub collateral: ReserveCollateral,
    /// Bump seed of the reserve's address.
    pub bump: u8,
    /// Bump seed of the reserve's stake account.
    pub stake_bump: u8,
    /// Bump seed of the reserve's vault.
    pub vault_bump: u8,
}

/// The economic state of one collateral source.
#[derive(Clone, Copy, Debug)]
pub struct Reserve {
    /// Version of the record.
    pub version: u8,
    /// Lending market that the reserve belongs to.
    pub lending_market: AccountKey,
    /// Vote account that the collateral is staked with.
    pub vote_account: AccountKey,
    /// Epoch up to which the stake has been rolled forward.
    pub last_epoch: u64,
    /// Slot of the last refresh, and the mark that forces a new one.
    pub last_update: LastUpdate,
    /// Liquidity pool.
    pub liquidity: ReserveLiquidity,
    /// Collateral pool.
    pub collateral: ReserveCollateral,
    /// Bump seed of the reserve's address.
    pub bump: u8,
    /// Bump seed of the reserve's stake account.
    pub stake_bump: u8,
    /// Bump seed of the reserve's vault.
    pub vault_bump: u8,
}

impl Default for Reserve {
    fn default() -> (reserve: Self)
        ensures
            reserve.version == 0,
            reserve.lending_market.is_zero(),
            reserve.vote_account.is_zero(),
            reserve.last_epoch == 0,
            reserve.last_update == (LastUpdate { slot: 0, stale: false }),
            reserve.liquidity.mint_pubkey.is_zero(),
            reserve.liquidity.mint_total_supply == 0,
            reserve.liquidity.vault_pubkey.is_zero(),
            reserve.liquidity.available_amount == 0,
            reserve.liquidity.borrowed_amount == 0,
            reserve.liquidity.cumulative_borrow_rate_wads == 0,
            reserve.collateral.mint_pubkey.is_zero(),
            reserve.collateral.mint_total_supply == 0,
            reserve.collateral.stake_account.is_zero(),
            reserve.collateral.collateral_amount == 0,
            reserve.collateral.collateral_amount_to_claim == 0,
            reserve.bump == 0,
            reserve.stake_bump == 0,
            reserve.vault_bump == 0,
    {
        Reserve {
            version: 0,
            lending_market: AccountKey::default(),
            vote_account: AccountKey::default(),
            last_epoch: 0,
            last_update: LastUpdate::default(),
            liquidity: ReserveLiquidity::default(),
            collateral: ReserveCollateral::default(),
            bump: 0,
            stake_bump: 0,
            vault_bump: 0,
        }
    }
}

impl Reserve {
    /// The reserve that `params` describes: accounted up to the current
    /// epoch and slot, and stale until the first refresh.
    pub open spec fn spec_new(params: InitReserveParams) -> Reserve {
        Reserve {
            version: PROGRAM_VERSION,
            lending_market: params.lending_market,
            vote_account: params.vote_account,
            last_epoch: params.current_epoch,
            last_update: LastUpdate { slot: params.current_slot, stale: true },
            liquidity: params.liquidity,
            collateral: params.collateral,
            bump: params.bump,
            stake_bump: params.stake_bump,
            vault_bump: params.vault_bump,
        }
    }

    /// The reserve after `liquidity_amount` is paid into the liquidity pool,
    /// with the pool tokens minted for it.
    pub open spec fn deposited(&self, liquidity_amount: u64) -> Result<(Reserve, u64), LendingError> {
        if self.liquidity.total() > u64::MAX {
            Err(LendingError::MathOverflow)
        } else {
            let minted = shares_for_deposit(
                liquidity_amount as int,
                self.liquidity.total(),
                self.liquidity.mint_total_supply as int,
            );
            if minted > u64::MAX {
                Err(LendingError::MathOverflow)
            } else {
                match self.liquidity.deposited(liquidity_amount) {
                    Err(e) => Err(e),
                    Ok((paid, _)) => match paid.minted(minted as u64) {
                        Err(e) => Err(e),
                        Ok((liquidity, _)) => Ok((Reserve { liquidity, ..*self }, minted as u64)),
                    },
                }
            }
        }
    }

    /// The reserve after `token_amount` pool tokens are redeemed, with the
    /// liquidity paid out for them.
    pub open spec fn redeemed(&self, token_amount: u64) -> Result<(Reserve, u64), LendingError> {
        if self.liquidity.total() > u64::MAX {
            Err(LendingError::MathOverflow)
        } else {
            let paid = underlying_for_shares(
                token_amount as int,
                self.liquidity.total(),
                self.liquidity.mint_total_supply as int,
            );
            if paid > u64::MAX {
                Err(LendingError::MathOverflow)
            } else {
                match self.liquidity.withdrawn(paid as u64) {
                    Err(e) => Err(e),
                    Ok((left, _)) => match left.burned(token_amount) {
                        Err(e) => Err(e),
                        Ok((liquidity, _)) => Ok((Reserve { liquidity, ..*self }, paid as u64)),
                    },
                }
            }
        }
    }

    /// The reserve after `collateral_amount` is deposited into the
    /// collateral pool, with the shares that weigh the deposit.
    pub open spec fn collateral_deposited(&self, collateral_amount: u64) -> Result<
        (Reserve, u64),
        LendingError,
    > {
        let minted = shares_for_deposit(
            collateral_amount as int,
            self.collateral.collateral_amount as int,
            self.collateral.mint_total_supply as int,
        );
        if minted > u64::MAX {
            Err(LendingError::MathOverflow)
        } else {
            match self.collateral.deposited(collateral_amount) {
                Err(e) => Err(e),
                Ok((paid, _)) => match paid.minted(minted as u64) {
                    Err(e) => Err(e),
                    Ok((collateral, _)) => Ok((Reserve { collateral, ..*self }, minted as u64)),
                },
            }
        }
    }

    /// The reserve after `token_amount` collateral shares are redeemed, with
    /// the collateral released for them.
    pub open spec fn collateral_redeemed(&self, token_amount: u64) -> Result<
        (Reserve, u64),
        LendingError,
    > {
        let released = underlying_for_shares(
            token_amount as int,
            self.collateral.collateral_amount as int,
            self.collateral.mint_total_supply as int,
        );
        if released > u64::MAX {
            Err(LendingError::MathOverflow)
        } else {
            match self.collateral.withdrawn(released as u64) {
                Err(e) => Err(e),
                Ok((left, _)) => match left.burned(token_amount) {
                    Err(e) => Err(e),
                    Ok((collateral, _)) => Ok((Reserve { collateral, ..*self }, released as u64)),
                },
            }
        }
    }

    /// Epochs from the one the reserve is accounted up to, to `epoch`;
    /// `MathOverflow` where `epoch` lies before it.
    pub open spec fn spec_epoch_elapsed(&self, epoch: u64) -> Result<u64, LendingError> {
        if epoch < self.last_epoch {
            Err(LendingError::MathOverflow)
        } else {
            Ok((epoch - self.last_epoch) as u64)
        }
    }

    /// A new reserve.
    pub fn new(params: InitReserveParams) -> (reserve: Self)
        ensures
            reserve == Reserve::spec_new(params),
    {
        let mut reserve = Reserve::default();
        reserve.init(params);
        reserve
    }

    /// Initializes the reserve with what `params` names.
    pub fn init(&mut self, params: InitReserveParams)
        ensures
            *final(self) == Reserve::spec_new(params),
    {
        self.version = PROGRAM_VERSION;
        self.last_epoch = params.current_epoch;
        self.last_update = LastUpdate::new(params.current_slot);
        self.lending_market = params.lending_market;
        self.vote_account = params.vote_account;
        self.liquidity = params.liquidity;
        self.collateral = params.collateral;
        self.bump = params.bump;
        self.stake_bump = params.stake_bump;
        self.vault_bump = params.vault_bump;
    }

    /// Records a deposit of liquidity and returns the pool tokens to mint
    /// for it, at the pool's ratio before the deposit. `MathOverflow` where
    /// the pool's total, the tokens, the liquidity at hand or the supply
    /// leaves 64 bits.
    pub fn deposit(&mut self, liquidity_amount: u64) -> (minted: Result<u64, LendingError>)
        ensures
            transacts(*old(self), *final(self), minted, old(self).deposited(liquidity_amount)),
    {
        let total_liquidity = match self.liquidity.total_liquidity() {
            Ok(total) => total,
            Err(e) => { return Err(e); },
        };
        let token_amount = match self.calculate_token_position(
            liquidity_amount,
            total_liquidity,
            self.liquidity.mint_total_supply,
        ) {
            Ok(tokens) => tokens,
            Err(e) => { return Err(e); },
        };
        let mut liquidity: ReserveLiquidity = self.liquidity;
        match liquidity.deposit(liquidity_amount) {
            Ok(_) => {},
            Err(e) => { return Err(e); },
        }
        match liquidity.mint(token_amount) {
            Ok(_) => {},
            Err(e) => { return Err(e); },
        }
        self.liquidity = liquidity;
        Ok(token_amount)
    }

    /// Records the redemption of pool tokens and returns the liquidity to
    /// pay out for them, at the pool's ratio before the redemption.
    /// `MathOverflow` where the pool's total or the payout leaves 64 bits;
    /// else `InsufficientLiquidity` where the payout is more than is at
    /// hand; else `MathOverflow` where more tokens are redeemed than are
    /// outstanding.
    pub fn reedem(&mut self, token_amount: u64) -> (paid: Result<u64, LendingError>)
        ensures
            transacts(*old(self), *final(self), paid, old(self).redeemed(token_amount)),
    {
        let total_liquidity = match self.liquidity.total_liquidity() {
            Ok(total) => total,
            Err(e) => { return Err(e); },
        };
        let liquidity_amount = match self.calculate_liquidity_position(
            token_amount,
            total_liquidity,
            self.liquidity.mint_total_supply,
        ) {
            Ok(amount) => amount,
            Err(e) => { return Err(e); },
        };
        let mut liquidity: ReserveLiquidity = self.liquidity;
        match liquidity.withdraw(liquidity_amount) {
            Ok(_) => {},
            Err(e) => { return Err(e); },
        }
        match liquidity.burn(token_amount) {
            Ok(_) => {},
            Err(e) => { return Err(e); },
        }
        self.liquidity = liquidity;
        Ok(liquidity_amount)
    }

    /// Records a deposit of collateral and returns the shares that weigh
    /// it, at the pool's ratio before the deposit. `MathOverflow` where the
    /// shares, the collateral held or the supply leaves 64 bits.
    pub fn deposit_collateral(&mut self, collateral_amount: u64) -> (minted: Result<
        u64,
        LendingError,
    >)
        ensures
            transacts(
                *old(self),
                *final(self),
                minted,
                old(self).collateral_deposited(collateral_amount),
            ),
    {
        let token_amount = match self.calculate_token_position(
            collateral_amount,
            self.collateral.collateral_amount,
            self.collateral.mint_total_supply,
        ) {
            Ok(tokens) => tokens,
            Err(e) => { return Err(e); },
        };
        let mut collateral: ReserveCollateral = self.collateral;
        match collateral.deposit(collateral_amount) {
            Ok(_) => {},
            Err(e) => { return Err(e); },
        }
        match collateral.mint(token_amount) {
            Ok(_) => {},
            Err(e) => { return Err(e); },
        }
        self.collateral = collateral;
        Ok(token_amount)
    }

    /// Records the redemption of collateral shares and returns the
    /// collateral to release for them, at the pool's ratio before the
    /// redemption. `MathOverflow` where the release leaves 64 bits; else
    /// `InsufficientLiquidity` where it is more than the pool holds; else
    /// `MathOverflow` where more shares are redeemed than are outstanding.
    pub fn reedem_collateral(&mut self, token_amount: u64) -> (released: Result<u64, LendingError>)
        ensures
            transacts(
                *old(self),
                *final(self),
                released,
                old(self).collateral_redeemed(token_amount),
            ),
    {
        let liquidity_amount = match self.calculate_liquidity_position(
            token_amount,
            self.collateral.collateral_amount,
            self.collateral.mint_total_supply,
        ) {
            Ok(amount) => amount,
            Err(e) => { return Err(e); },
        };
        let mut collateral: ReserveCollateral = self.collateral;
        match collateral.withdraw(liquidity_amount) {
            Ok(_) => {},
            Err(e) => { return Err(e); },
        }
        match collateral.burn(token_amount) {
            Ok(_) => {},
            Err(e) => { return Err(e); },
        }
        self.collateral = collateral;
        Ok(liquidity_amount)
    }

    /// Pool tokens to mint for `liquidity_deposit` paid into a pool of
    /// `total_liquidity` against `total_token_supply` tokens: one for one
    /// into an empty pool, else in proportion, rounded down;
    /// `MathOverflow` exactly when that number leaves 64 bits.
    pub fn calculate_token_position(
        &self,
        liquidity_deposit: u64,
        total_liquidity: u64,
        total_token_supply: u64,
    ) -> (minted: Result<u64, LendingError>)
        ensures
            shares_for_deposit(
                liquidity_deposit as int,
                total_liquidity as int,
                total_token_supply as int,
            ) <= u64::MAX ==> minted == Ok::<u64, LendingError>(
                shares_for_deposit(
                    liquidity_deposit as int,
                    total_liquidity as int,
                    total_token_supply as int,
                ) as u64,
            ),
            shares_for_deposit(
                liquidity_deposit as int,
                total_liquidity as int,
                total_token_supply as int,
            ) > u64::MAX ==> minted == Err::<u64, LendingError>(LendingError::MathOverflow),
    {
        calculate_deposit_amount(total_token_supply, total_liquidity, liquidity_deposit)
    }

    /// Liquidity to pay out for `token_to_burn` tokens of a pool of
    /// `total_liquidity` against `total_token_supply` tokens: nothing from
    /// an empty pool, else in proportion, rounded down; `MathOverflow`
    /// exactly when that amount leaves 64 bits.
    pub fn calculate_liquidity_position(
        &self,
        token_to_burn: u64,
        total_liquidity: u64,
        total_token_supply: u64,
    ) -> (paid: Result<u64, LendingError>)
        ensures
            underlying_for_shares(
                token_to_burn as int,
                total_liquidity as int,
                total_token_supply as int,
            ) <= u64::MAX ==> paid == Ok::<u64, LendingError>(
                underlying_for_shares(
                    token_to_burn as int,
                    total_liquidity as int,
                    total_token_supply as int,
                ) as u64,
            ),
            underlying_for_shares(
                token_to_burn as int,
                total_liquidity as int,
                total_token_supply as int,
            ) > u64::MAX ==> paid == Err::<u64, LendingError>(LendingError::MathOverflow),
    {
        calculate_withdraw_amount(total_token_supply, total_liquidity, token_to_burn)
    }

    /// Epochs from the one the reserve is accounted up to, to `epoch`.
    #[verifier::when_used_as_spec(spec_epoch_elapsed)]
    pub fn epoch_elapsed(&self, epoch: u64) -> (elapsed: Result<u64, LendingError>)
        ensures
            elapsed == self.spec_epoch_elapsed(epoch),
    {
        match epoch.checked_sub(self.last_epoch) {
            Some(elapsed) => Ok(elapsed),
            None => Err(LendingError::MathOverflow),
        }
    }

    /// Sets the epoch that the reserve is accounted up to.
    pub fn update_epoch(&mut self, epoch: u64)
        ensures
            *final(self) == (Reserve { last_epoch: epoch, ..*old(self) }),
    {
        self.last_epoch = epoch;
    }

    /// Liquidity paid into a pool that is not empty, and redeemed at once
    /// for the tokens it minted, never pays out more than was paid in.
    pub proof fn lemma_deposit_then_redeem_never_gains(&self, liquidity_amount: u64)
        requires
            self.liquidity.total() > 0,
            self.liquidity.mint_total_supply > 0,
            self.deposited(liquidity_amount) is Ok,
            self.deposited(liquidity_amount)->Ok_0.0.redeemed(
                self.deposited(liquidity_amount)->Ok_0.1,
            ) is Ok,
        ensures
            self.deposited(liquidity_amount)->Ok_0.0.redeemed(
                self.deposited(liquidity_amount)->Ok_0.1,
            )->Ok_0.1 <= liquidity_amount,
    {
        lemma_round_trip_never_gains(
            liquidity_amount as int,
            self.liquidity.total(),
            self.liquidity.mint_total_supply as int,
        );
    }

    /// Collateral deposited into a pool that is not empty, and redeemed at
    /// once for the shares that weigh it, never releases more than was
    /// deposited.
    pub proof fn lemma_collateral_round_trip_never_gains(&self, collateral_amount: u64)
        requires
            self.collateral.collateral_amount > 0,
            self.collateral.mint_total_supply > 0,
            self.collateral_deposited(collateral_amount) is Ok,
            self.collateral_deposited(collateral_amount)->Ok_0.0.collateral_redeemed(
                self.collateral_deposited(collateral_amount)->Ok_0.1,
            ) is Ok,
        ensures
            self.collateral_deposited(collateral_amount)->Ok_0.0.collateral_redeemed(
                self.collateral_deposited(collateral_amount)->Ok_0.1,
            )->Ok_0.1 <= collateral_amount,
    {
        lemma_round_trip_never_gains(
            collateral_amount as int,
            self.collateral.collateral_amount as int,
            self.collateral.mint_total_supply as int,
        );
    }
}

} // verus!

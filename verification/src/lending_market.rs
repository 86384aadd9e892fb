//! The lending market that reserves and obligations belong to.

use vstd::prelude::*;
use crate::key::AccountKey;
use crate::wad::{PROGRAM_VERSION, UNINITIALIZED_VERSION};

verus! {

/// What a new lending market starts with.
#[derive(Clone, Copy, Debug)]
pub struct InitLendingMarketParams {
    /// Owner, who alone may add reserves.
    pub owner: AccountKey,
    /// Bump seed of the market's address.
    pub bump: u8,
    /// Bump seed of the market's derived authority.
    pub authority_bump: u8,
}

/// A lending market.
#[derive(Clone, Copy, Debug)]
pub struct LendingMarket {
    /// Version of the record; `UNINITIALIZED_VERSION` until initialized.
    pub version: u8,
    /// Owner, who alone may add reserves.
    pub owner: AccountKey,
    /// Bump seed of the market's address.
    pub bump: u8,
    /// Bump seed of the market's derived authority.
    pub authority_bump: u8,
}

impl Default for LendingMarket {
    fn default() -> (market: Self)
        ensures
            market.version == UNINITIALIZED_VERSION,
            market.owner.is_zero(),
            market.bump == 0,
            market.authority_bump == 0,
    {
        LendingMarket {
            version: UNINITIALIZED_VERSION,
            owner: AccountKey::default(),
            bump: 0,
            authority_bump: 0,
        }
    }
}

impl LendingMarket {
    /// The initialized market that `params` describes.
    pub open spec fn spec_new(params: InitLendingMarketParams) -> LendingMarket {
        LendingMarket {
            version: PROGRAM_VERSION,
            owner: params.owner,
            bump: params.bump,
            authority_bump: params.authority_bump,
        }
    }

    /// A new, initialized market.
    pub fn new(params: InitLendingMarketParams) -> (market: Self)
        ensures
            market == LendingMarket::spec_new(params),
    {
        let mut lending_market = LendingMarket::default();
        lending_market.init(params);
        lending_market
    }

    /// Initializes the market with what `params` names.
    pub fn init(&mut self, params: InitLendingMarketParams)
        ensures
            *final(self) == LendingMarket::spec_new(params),
    {
        self.version = PROGRAM_VERSION;
        self.owner = params.owner;
        self.bump = params.bump;
        self.authority_bump = params.authority_bump;
    }

    /// Whether the market has been initialized.
    pub fn is_initialized(&self) -> (initialized: bool)
        ensures
            initialized == (self.version != UNINITIALIZED_VERSION),
    {
        self.version != UNINITIALIZED_VERSION
    }

    /// Hands the market to `new_owner`.
    pub fn set_owner(&mut self, new_owner: AccountKey)
        ensures
            *final(self) == (LendingMarket { owner: new_owner, ..*old(self) }),
    {
        self.owner = new_owner;
    }
}

} // verus!

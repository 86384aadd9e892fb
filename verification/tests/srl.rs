use anchor_lang::AnchorSerialize;
use icarus_lending::stake::{Delegation, Meta, Stake, StakeState};
use icarus_lending::wad::{PROGRAM_VERSION, WAD};
use icarus_lending::{
    AccountKey, DepositLiquidityArgs, LendingError, NewReserveLiquidityParams,
    RedeemLiquidityArgs, SrlEpochObservation, SrlEpochPlan, SrlInitLendingMarketParams,
    SrlInitReserveParams, SrlLendingMarket, SrlReserve, SrlReserveLiquidity,
};
use solana_program::pubkey::Pubkey;
use solana_program::stake::stake_flags::StakeFlags;
use solana_program::stake::state::StakeStateV2;

const RENT: u64 = 2_282_880;
const SOL: u64 = 1_000_000_000;

fn key(byte: u8) -> AccountKey {
    AccountKey::new_from_array([byte; 32])
}

fn pool() -> SrlReserveLiquidity {
    SrlReserveLiquidity::new(NewReserveLiquidityParams { mint_pubkey: key(3), vault_pubkey: key(4) })
}

fn reserve() -> SrlReserve {
    SrlReserve::new(SrlInitReserveParams {
        current_epoch: 7,
        current_slot: 100,
        lending_market: key(1),
        liquidity: pool(),
    })
}

fn delegated(stake: u64, activation: u64, deactivation: u64) -> Option<StakeState> {
    Some(StakeState::Stake(
        Meta { rent_exempt_reserve: RENT },
        Stake {
            delegation: Delegation { stake, activation_epoch: activation, deactivation_epoch: deactivation },
            credits_observed: 0,
        },
    ))
}

fn ledger_bytes(stake: u64, activation: u64) -> Vec<u8> {
    StakeStateV2::Stake(
        solana_program::stake::state::Meta {
            rent_exempt_reserve: RENT,
            authorized: solana_program::stake::state::Authorized::auto(&Pubkey::new_from_array([1u8; 32])),
            lockup: solana_program::stake::state::Lockup::default(),
        },
        solana_program::stake::state::Stake {
            delegation: solana_program::stake::state::Delegation::new(&Pubkey::new_from_array([2u8; 32]), stake, activation),
            credits_observed: 0,
        },
        StakeFlags::empty(),
    )
    .try_to_vec()
    .unwrap()
}

fn seen(epoch: u64, staked: u64) -> SrlEpochObservation {
    SrlEpochObservation {
        current_slot: 500,
        current_epoch: epoch,
        reported_minimum_delegation: 1,
        stake_rent: RENT,
        market_stake: delegated(staked, 0, u64::MAX),
        merging_stake: None,
    }
}

const IDLE: SrlEpochPlan = SrlEpochPlan { initialize_stake: None, merge_stake: false };

#[test]
fn single_market_lifecycle() {
    let blank = SrlLendingMarket::default();
    assert!(!blank.is_initialized());
    assert_eq!(blank.vote_account, AccountKey::default());
    let mut market = SrlLendingMarket::new(SrlInitLendingMarketParams { bump_seed: 9, owner: key(1), vote_account: key(2) });
    assert!(market.is_initialized());
    assert_eq!(market.version, PROGRAM_VERSION);
    assert_eq!((market.bump_seed, market.owner, market.vote_account), (9, key(1), key(2)));
    market.set_owner(key(5));
    assert_eq!((market.bump_seed, market.owner, market.vote_account), (9, key(5), key(2)));
    market.init(SrlInitLendingMarketParams { bump_seed: 1, owner: key(6), vote_account: key(7) });
    assert_eq!((market.bump_seed, market.owner, market.vote_account), (1, key(6), key(7)));
}

#[test]
fn single_market_reserve_starts_stale_and_empty() {
    let r = reserve();
    assert_eq!(r.version, PROGRAM_VERSION);
    assert_eq!(r.last_epoch, 7);
    assert_eq!(r.last_update.slot, 100);
    assert!(r.last_update.stale);
    assert_eq!(r.lending_market, key(1));
    assert_eq!(r.liquidity.mint_pubkey, key(3));
    assert_eq!(r.liquidity.vault_pubkey, key(4));
    assert_eq!(r.liquidity.cumulative_borrow_rate_wads, WAD as u128);
    assert_eq!(r.liquidity.total_liquidity(), Ok(0));
    let blank = SrlReserve::default();
    assert_eq!((blank.version, blank.last_epoch), (0, 0));
    assert_eq!(blank.liquidity.cumulative_borrow_rate_wads, 0);
    assert_eq!(blank.lending_market, AccountKey::default());
}

#[test]
fn scaled_debt_of_the_pool() {
    let mut l = pool();
    assert_eq!(l.deposit(1000), Ok(()));
    assert_eq!(l.mint(900), Ok(()));
    assert_eq!(l.borrow(1001), Err(LendingError::InsufficientLiquidity));
    assert_eq!(l.borrow(400), Ok(()));
    assert_eq!(l.available_amount, 600);
    assert_eq!(l.borrowed_amount_wads, 400 * WAD as u128);
    assert_eq!(l.total_liquidity(), Ok(600 + 400 * WAD as u128));
    assert_eq!(l.repay(150, 400 * WAD as u128 + 1), Err(LendingError::MathOverflow));
    assert_eq!(l.repay(u64::MAX, 0), Err(LendingError::MathOverflow));
    assert_eq!((l.available_amount, l.borrowed_amount_wads), (600, 400 * WAD as u128));
    assert_eq!(l.repay(150, 100 * WAD as u128), Ok(()));
    assert_eq!((l.available_amount, l.borrowed_amount_wads), (750, 300 * WAD as u128));
    assert_eq!(l.withdraw(751), Err(LendingError::InsufficientLiquidity));
    assert_eq!(l.withdraw(750), Ok(()));
    assert_eq!(l.burn(901), Err(LendingError::MathOverflow));
    assert_eq!(l.burn(900), Ok(()));
    assert_eq!(l.mint(u64::MAX), Ok(()));
    assert_eq!(l.mint(1), Err(LendingError::MathOverflow));
    assert_eq!(l.deposit(u64::MAX), Ok(()));
    assert_eq!(l.deposit(1), Err(LendingError::MathOverflow));
}

#[test]
fn scaled_debt_overflows_at_128_bits() {
    let mut l = SrlReserveLiquidity::default();
    l.available_amount = 10;
    l.borrowed_amount_wads = u128::MAX - WAD as u128 + 1;
    assert_eq!(l.total_liquidity(), Ok(u128::MAX - WAD as u128 + 11));
    assert_eq!(l.borrow(1), Err(LendingError::MathOverflow));
    assert_eq!((l.available_amount, l.borrowed_amount_wads), (10, u128::MAX - WAD as u128 + 1));
    l.borrowed_amount_wads = u128::MAX - WAD as u128;
    assert_eq!(l.borrow(1), Ok(()));
    assert_eq!((l.available_amount, l.borrowed_amount_wads), (9, u128::MAX));
    assert_eq!(l.total_liquidity(), Err(LendingError::MathOverflow));
    l.available_amount = 0;
    assert_eq!(l.total_liquidity(), Ok(u128::MAX));
}

#[test]
fn single_market_round_trip() {
    let mut r = reserve();
    assert_eq!(r.deposit(500), Ok(500));
    assert_eq!((r.liquidity.available_amount, r.liquidity.mint_total_supply), (500, 500));
    r.liquidity.available_amount = 1000;
    r.liquidity.mint_total_supply = 333;
    assert_eq!(r.deposit(100), Ok(33));
    assert_eq!((r.liquidity.available_amount, r.liquidity.mint_total_supply), (1100, 366));
    assert_eq!(r.reedem(33), Ok(99));
    assert_eq!((r.liquidity.available_amount, r.liquidity.mint_total_supply), (1001, 333));
    assert_eq!(r.reedem(334), Err(LendingError::InsufficientLiquidity));
    r.liquidity.mint_total_supply = 2000;
    assert_eq!(r.reedem(2001), Err(LendingError::MathOverflow));
    assert_eq!((r.liquidity.available_amount, r.liquidity.mint_total_supply), (1001, 2000));
}

#[test]
fn single_market_conversions_with_wide_totals() {
    let r = reserve();
    assert_eq!(r.calculate_token_position(500, 0, 7), Ok(500));
    assert_eq!(r.calculate_token_position(500, 7, 0), Ok(500));
    assert_eq!(r.calculate_token_position(100, 1000, 333), Ok(33));
    assert_eq!(r.calculate_token_position(100, 400 * WAD as u128, 1000), Ok(0));
    assert_eq!(r.calculate_token_position(u64::MAX, 1, 2), Err(LendingError::MathOverflow));
    assert_eq!(r.calculate_liquidity_position(5, 0, 7), Ok(0));
    assert_eq!(r.calculate_liquidity_position(5, 7, 0), Ok(0));
    assert_eq!(r.calculate_liquidity_position(33, 1000, 333), Ok(99));
    assert_eq!(r.calculate_liquidity_position(u64::MAX, u128::MAX, 1), Err(LendingError::MathOverflow));
    assert_eq!(r.calculate_liquidity_position(2, u128::MAX, u64::MAX), Err(LendingError::MathOverflow));
    assert_eq!(r.calculate_liquidity_position(1, u128::MAX, u64::MAX), Err(LendingError::MathOverflow));
    let square = (u64::MAX as u128) * (u64::MAX as u128);
    assert_eq!(r.calculate_liquidity_position(1, square, u64::MAX), Ok(u64::MAX));
}

#[test]
fn single_market_total_overflow_changes_nothing() {
    let mut r = reserve();
    r.liquidity.available_amount = 1;
    r.liquidity.borrowed_amount_wads = u128::MAX;
    r.liquidity.mint_total_supply = 5;
    assert_eq!(r.deposit(1), Err(LendingError::MathOverflow));
    assert_eq!(r.reedem(1), Err(LendingError::MathOverflow));
    assert_eq!((r.liquidity.available_amount, r.liquidity.mint_total_supply), (1, 5));
}

#[test]
fn single_market_actions_need_a_fresh_reserve() {
    let mut r = reserve();
    assert_eq!(
        r.deposit_reserve_liquidity(100, DepositLiquidityArgs { liquidity_amount: 500 }),
        Err(LendingError::ReserveStale)
    );
    r.refresh_reserve(100);
    assert_eq!(r.require_fresh(100), Ok(()));
    assert_eq!(r.require_fresh(99), Err(LendingError::MathOverflow));
    assert_eq!(r.deposit_reserve_liquidity(100, DepositLiquidityArgs { liquidity_amount: 500 }), Ok(500));
    assert!(r.last_update.stale);
    assert_eq!(r.liquidity.available_amount, 500);
    assert_eq!(
        r.redeem_reserve_liquidity(100, RedeemLiquidityArgs { token_amount: 0 }),
        Err(LendingError::InvalidAmount)
    );
    assert_eq!(
        r.redeem_reserve_liquidity(100, RedeemLiquidityArgs { token_amount: 5 }),
        Err(LendingError::ReserveStale)
    );
    r.refresh_reserve(101);
    assert_eq!(r.redeem_reserve_liquidity(101, RedeemLiquidityArgs { token_amount: 200 }), Ok(200));
    assert_eq!((r.liquidity.available_amount, r.liquidity.mint_total_supply), (300, 300));
    assert!(r.last_update.stale);
    r.refresh_reserve(101);
    assert_eq!(
        r.redeem_reserve_liquidity(101, RedeemLiquidityArgs { token_amount: 301 }),
        Err(LendingError::InsufficientLiquidity)
    );
    assert!(!r.last_update.stale);
}

#[test]
fn single_market_epochs() {
    let mut r = reserve();
    assert_eq!(r.epoch_elapsed(7), Ok(0));
    assert_eq!(r.epoch_elapsed(9), Ok(2));
    assert_eq!(r.epoch_elapsed(6), Err(LendingError::MathOverflow));
    r.update_epoch(9);
    assert_eq!(r.last_epoch, 9);
}

#[test]
fn single_market_refresh() {
    let mut r = reserve();
    assert_eq!(r.plan_epoch_refresh(&seen(7, 5 * SOL)), Ok(IDLE));
    assert_eq!((r.last_epoch, r.last_update.slot, r.last_update.stale), (7, 500, false));
    let mut observation = seen(10, 5 * SOL);
    observation.merging_stake = delegated(SOL, 7, u64::MAX);
    assert_eq!(
        r.plan_epoch_refresh(&observation),
        Ok(SrlEpochPlan { initialize_stake: Some(5 * SOL), merge_stake: true })
    );
    assert_eq!(r.last_epoch, 10);
    assert_eq!(r.plan_epoch_refresh(&observation), Ok(IDLE));
    assert_eq!(r.last_epoch, 10);

    let mut at_threshold = reserve();
    assert_eq!(at_threshold.plan_epoch_refresh(&seen(8, RENT + SOL)), Ok(IDLE));
    assert_eq!(at_threshold.last_epoch, 8);
    let mut above = reserve();
    assert_eq!(
        above.plan_epoch_refresh(&seen(8, RENT + SOL + 1)),
        Ok(SrlEpochPlan { initialize_stake: Some(RENT + SOL + 1), merge_stake: false })
    );
    let mut not_yet = reserve();
    let mut young = seen(8, SOL);
    young.merging_stake = delegated(SOL, 8, u64::MAX);
    assert_eq!(not_yet.plan_epoch_refresh(&young), Ok(IDLE));
}

#[test]
fn single_market_refresh_failures_change_nothing() {
    let mut r = reserve();
    assert_eq!(r.plan_epoch_refresh(&seen(6, SOL)), Err(LendingError::MathOverflow));
    let mut unreadable = seen(8, SOL);
    unreadable.market_stake = None;
    assert_eq!(r.plan_epoch_refresh(&unreadable), Err(LendingError::InvalidAccountData));
    let mut undelegated = seen(8, SOL);
    undelegated.market_stake = Some(StakeState::Uninitialized);
    assert_eq!(r.plan_epoch_refresh(&undelegated), Err(LendingError::WrongStakeStake));
    assert_eq!((r.last_epoch, r.last_update.slot, r.last_update.stale), (7, 100, true));
}

#[test]
fn single_market_refresh_from_account_bytes() {
    let mut r = reserve();
    let market = ledger_bytes(3 * SOL, 0);
    let merging = ledger_bytes(SOL, 7);
    assert_eq!(
        r.refresh_epoch(600, 8, 1, RENT, &market, &merging),
        Ok(SrlEpochPlan { initialize_stake: Some(3 * SOL), merge_stake: true })
    );
    assert_eq!((r.last_epoch, r.last_update.slot), (8, 600));
    let empty: [u8; 0] = [];
    let mut s = reserve();
    assert_eq!(s.refresh_epoch(600, 8, 1, RENT, &empty, &merging), Err(LendingError::InvalidAccountData));
    assert_eq!(
        s.refresh_epoch(600, 8, 1, RENT, &market, &empty),
        Ok(SrlEpochPlan { initialize_stake: Some(3 * SOL), merge_stake: false })
    );
}

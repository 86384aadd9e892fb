use icarus_lending::epoch::{activation_threshold, tranche_is_active, tranche_is_released};
use icarus_lending::stake::{Delegation, Meta, Stake, StakeState};
use icarus_lending::{
    AccountKey, EpochObservation, EpochPlan, InitReserveParams, LendingError,
    NewReserveCollateralParams, NewReserveLiquidityParams, Reserve, ReserveCollateral,
    ReserveLiquidity,
};
use anchor_lang::AnchorSerialize;
use solana_program::pubkey::Pubkey;
use solana_program::stake::stake_flags::StakeFlags;
use solana_program::stake::state::StakeStateV2;

const RENT: u64 = 2_282_880;
const SOL: u64 = 1_000_000_000;

fn key(byte: u8) -> AccountKey {
    AccountKey::new_from_array([byte; 32])
}

fn reserve(epoch: u64) -> Reserve {
    Reserve::new(InitReserveParams {
        current_epoch: epoch,
        current_slot: 100,
        lending_market: key(1),
        vote_account: key(2),
        liquidity: ReserveLiquidity::new(NewReserveLiquidityParams { mint_pubkey: key(3), vault_pubkey: key(4) }),
        collateral: ReserveCollateral::new(NewReserveCollateralParams { mint_pubkey: key(5), stake_account: key(6) }),
        bump: 0,
        stake_bump: 0,
        vault_bump: 0,
    })
}

fn delegated(stake: u64, activation: u64, deactivation: u64) -> Option<StakeState> {
    Some(StakeState::Stake(
        Meta { rent_exempt_reserve: RENT },
        Stake {
            delegation: Delegation { stake, activation_epoch: activation, deactivation_epoch: deactivation },
            credits_observed: 0,
        },
    ))
}

fn seen(epoch: u64, lamports: u64, staked: u64) -> EpochObservation {
    EpochObservation {
        current_slot: 500,
        current_epoch: epoch,
        reported_minimum_delegation: 1,
        stake_rent: RENT,
        reserve_stake_lamports: lamports,
        reserve_stake: delegated(staked, 0, u64::MAX),
        old_activating: None,
        old_deactivating: None,
    }
}

fn idle() -> EpochPlan {
    EpochPlan { initialize_stake: None, merge_activating: false, claim_deactivated: false, split_and_deactivate: None }
}

fn ledger_bytes(stake: u64, activation: u64, deactivation: u64) -> Vec<u8> {
    let mut delegation = solana_program::stake::state::Delegation::new(&Pubkey::new_from_array([2u8; 32]), stake, activation);
    delegation.deactivation_epoch = deactivation;
    StakeStateV2::Stake(
        solana_program::stake::state::Meta {
            rent_exempt_reserve: RENT,
            authorized: solana_program::stake::state::Authorized::auto(&Pubkey::new_from_array([1u8; 32])),
            lockup: solana_program::stake::state::Lockup::default(),
        },
        solana_program::stake::state::Stake { delegation, credits_observed: 0 },
        StakeFlags::empty(),
    )
    .try_to_vec()
    .unwrap()
}

#[test]
fn refresh_within_the_epoch_is_idle_twice() {
    let mut r = reserve(7);
    r.collateral.collateral_amount_to_claim = 40;
    let mut observation = seen(7, 10 * SOL, SOL);
    observation.old_activating = delegated(SOL, 1, u64::MAX);
    observation.old_deactivating = delegated(SOL, 1, 2);
    assert_eq!(r.plan_epoch_refresh(&observation), Ok(idle()));
    assert_eq!(r.last_epoch, 7);
    assert_eq!(r.collateral.collateral_amount_to_claim, 40);
    assert_eq!(r.last_update.slot, 500);
    assert!(!r.last_update.stale);
    assert_eq!(r.plan_epoch_refresh(&observation), Ok(idle()));
    assert_eq!(r.last_epoch, 7);
    assert_eq!(r.collateral.collateral_amount_to_claim, 40);
    assert_eq!(EpochPlan::idle(), idle());
}

#[test]
fn refresh_within_the_epoch_does_not_read_the_stake() {
    let mut r = reserve(7);
    let mut observation = seen(7, 0, SOL);
    observation.reserve_stake = None;
    assert_eq!(r.plan_epoch_refresh(&observation), Ok(idle()));
}

#[test]
fn refresh_after_three_epochs_reaches_the_current_epoch() {
    let mut r = reserve(7);
    r.collateral.collateral_amount_to_claim = 40;
    r.collateral.collateral_amount = 900;
    r.liquidity.available_amount = 77;
    let mut observation = seen(10, 5 * SOL, SOL);
    observation.old_activating = delegated(SOL, 7, u64::MAX);
    observation.old_deactivating = delegated(SOL, 1, 7);
    let plan = r.plan_epoch_refresh(&observation).unwrap();
    assert_eq!(
        plan,
        EpochPlan {
            initialize_stake: Some(4 * SOL),
            merge_activating: true,
            claim_deactivated: true,
            split_and_deactivate: Some(40),
        }
    );
    assert_eq!(r.last_epoch, 10);
    assert_eq!(r.collateral.collateral_amount_to_claim, 0);
    assert_eq!(r.collateral.collateral_amount, 900);
    assert_eq!(r.liquidity.available_amount, 77);
    assert_eq!(r.epoch_elapsed(10), Ok(0));
    assert_eq!(r.plan_epoch_refresh(&observation), Ok(idle()));
    assert_eq!(r.last_epoch, 10);
    assert_eq!(r.collateral.collateral_amount_to_claim, 0);
    assert_eq!(r.collateral.collateral_amount, 900);
    assert_eq!(r.liquidity.available_amount, 77);
}

#[test]
fn refresh_after_one_epoch_then_idle() {
    let mut r = reserve(7);
    r.collateral.collateral_amount_to_claim = 1;
    let observation = seen(8, 5 * SOL, SOL);
    let plan = r.plan_epoch_refresh(&observation).unwrap();
    assert_eq!(plan.split_and_deactivate, Some(1));
    assert_eq!(r.last_epoch, 8);
    assert_eq!(r.plan_epoch_refresh(&observation), Ok(idle()));
    assert_eq!(r.last_epoch, 8);
}

#[test]
fn idle_balance_must_exceed_the_threshold() {
    assert_eq!(activation_threshold(RENT, 1), RENT + SOL);
    assert_eq!(activation_threshold(RENT, 2 * SOL), RENT + 2 * SOL);
    assert_eq!(activation_threshold(u64::MAX, 1), u64::MAX);
    let mut at_threshold = reserve(7);
    let plan = at_threshold.plan_epoch_refresh(&seen(8, SOL + RENT + SOL, SOL)).unwrap();
    assert_eq!(plan.initialize_stake, None);
    let mut above = reserve(7);
    let plan = above.plan_epoch_refresh(&seen(8, SOL + RENT + SOL + 1, SOL)).unwrap();
    assert_eq!(plan.initialize_stake, Some(RENT + SOL + 1));
}

#[test]
fn tranches_are_handled_only_in_their_state() {
    assert!(tranche_is_active(delegated(SOL, 7, u64::MAX), 8));
    assert!(!tranche_is_active(delegated(SOL, 8, u64::MAX), 8));
    assert!(!tranche_is_active(delegated(SOL, 7, 9), 10));
    assert!(!tranche_is_active(Some(StakeState::Uninitialized), 8));
    assert!(!tranche_is_active(Some(StakeState::Initialized(Meta { rent_exempt_reserve: RENT })), 8));
    assert!(!tranche_is_active(None, 8));
    assert!(tranche_is_released(delegated(SOL, 1, 7), 8));
    assert!(!tranche_is_released(delegated(SOL, 1, 8), 8));
    assert!(!tranche_is_released(delegated(SOL, 1, u64::MAX), 8));
    assert!(!tranche_is_released(Some(StakeState::RewardsPool), 8));
    assert!(!tranche_is_released(None, 8));
    let mut r = reserve(7);
    let mut observation = seen(8, SOL, SOL);
    observation.old_activating = delegated(SOL, 8, u64::MAX);
    observation.old_deactivating = delegated(SOL, 1, 8);
    assert_eq!(r.plan_epoch_refresh(&observation), Ok(idle()));
    assert_eq!(r.last_epoch, 8);
}

#[test]
fn refresh_failures_change_nothing() {
    let mut r = reserve(7);
    r.collateral.collateral_amount_to_claim = 40;
    assert_eq!(r.plan_epoch_refresh(&seen(6, 5 * SOL, SOL)), Err(LendingError::MathOverflow));
    assert_eq!(r.plan_epoch_refresh(&seen(8, SOL - 1, SOL)), Err(LendingError::MathOverflow));
    let mut undecodable = seen(8, 5 * SOL, SOL);
    undecodable.reserve_stake = None;
    assert_eq!(r.plan_epoch_refresh(&undecodable), Err(LendingError::InvalidAccountData));
    let mut undelegated = seen(8, 5 * SOL, SOL);
    undelegated.reserve_stake = Some(StakeState::Initialized(Meta { rent_exempt_reserve: RENT }));
    assert_eq!(r.plan_epoch_refresh(&undelegated), Err(LendingError::WrongStakeStake));
    assert_eq!(r.last_epoch, 7);
    assert_eq!(r.last_update.slot, 100);
    assert!(r.last_update.stale);
    assert_eq!(r.collateral.collateral_amount_to_claim, 40);
}

#[test]
fn refresh_from_account_bytes() {
    let mut r = reserve(7);
    r.collateral.collateral_amount_to_claim = 9;
    let reserve_stake = ledger_bytes(SOL, 0, u64::MAX);
    let activating = ledger_bytes(SOL, 7, u64::MAX);
    let deactivating = ledger_bytes(SOL, 1, 7);
    let plan = r
        .refresh_reserve_epoch(600, 8, 1, RENT, 3 * SOL, &reserve_stake, &activating, &deactivating)
        .unwrap();
    assert_eq!(
        plan,
        EpochPlan {
            initialize_stake: Some(2 * SOL),
            merge_activating: true,
            claim_deactivated: true,
            split_and_deactivate: Some(9),
        }
    );
    assert_eq!(r.last_epoch, 8);
    assert_eq!(r.last_update.slot, 600);
    let empty: [u8; 0] = [];
    let mut s = reserve(7);
    assert_eq!(
        s.refresh_reserve_epoch(600, 8, 1, RENT, 3 * SOL, &empty, &activating, &deactivating),
        Err(LendingError::InvalidAccountData)
    );
    assert_eq!(
        s.refresh_reserve_epoch(600, 8, 1, RENT, 3 * SOL, &reserve_stake, &empty, &empty),
        Ok(EpochPlan { initialize_stake: Some(2 * SOL), merge_activating: false, claim_deactivated: false, split_and_deactivate: None })
    );
}

#[test]
fn refresh_reserve_records_the_slot() {
    let mut r = reserve(7);
    r.refresh_reserve(321);
    assert_eq!(r.last_update.slot, 321);
    assert!(!r.last_update.stale);
    assert_eq!(r.last_epoch, 7);
}

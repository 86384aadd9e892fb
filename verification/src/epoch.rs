//! Rolling a reserve's stake forward when the ledger enters a new epoch.
//!
//! A refresh decides what is to be done with the stake accounts of a
//! reserve; the caller then does it. Each step looks at the state of its own
//! account, so that a refresh may be called by anyone, at any time, and again.

use vstd::prelude::*;
use crate::error::{transacts, LendingError};
use crate::last_update::LastUpdate;
use crate::reserve::Reserve;
use crate::stake::{
    decoded_stake_amount,
    decoded_stake_state,
    is_stake_active_without_history,
    is_stake_released_without_history,
    minimum_delegation,
    decode_stake_state,
    spec_decoded_stake_amount,
    spec_is_stake_active_without_history,
    spec_is_stake_released_without_history,
    spec_minimum_delegation,
    StakeState,
};

verus! {

/// What a refresh reads from the ledger.
#[derive(Clone, Copy, Debug)]
pub struct EpochObservation {
    /// Slot of the refresh.
    pub current_slot: u64,
    /// Epoch of the refresh.
    pub current_epoch: u64,
    /// Least delegation that the stake program reports.
    pub reported_minimum_delegation: u64,
    /// Balance that keeps a stake account exempt from rent.
    pub stake_rent: u64,
    /// Balance of the reserve's stake account.
    pub reserve_stake_lamports: u64,
    /// What the reserve's stake account holds.
    pub reserve_stake: Option<StakeState>,
    /// What the account of the tranche that began activating at the
    /// reserve's last refresh into a new epoch holds.
    pub old_activating: Option<StakeState>,
    /// What the account of the tranche that began deactivating at the
    /// reserve's last refresh into a new epoch holds.
    pub old_deactivating: Option<StakeState>,
}

/// What a refresh asks the caller to do, in this order.
#[derive(Clone, Copy, Debug, PartialEq, Eq, Structural)]
pub struct EpochPlan {
    /// Carve this much idle balance out of the reserve's stake account and
    /// delegate it as a new tranche, which begins to activate.
    pub initialize_stake: Option<u64>,
    /// Merge the tranche that has become active into the reserve's stake.
    pub merge_activating: bool,
    /// Sweep the tranche that has been released into the liquidity vault.
    pub claim_deactivated: bool,
    /// Split this much off the reserve's stake and deactivate it.
    pub split_and_deactivate: Option<u64>,
}

impl EpochPlan {
    /// The plan that asks for nothing.
    pub open spec fn spec_idle() -> EpochPlan {
        EpochPlan {
            initialize_stake: None,
            merge_activating: false,
            claim_deactivated: false,
            split_and_deactivate: None,
        }
    }

    /// The plan that asks for nothing.
    #[verifier::when_used_as_spec(spec_idle)]
    pub fn idle() -> (plan: EpochPlan)
        ensures
            plan == EpochPlan::spec_idle(),
    {
        EpochPlan {
            initialize_stake: None,
            merge_activating: false,
            claim_deactivated: false,
            split_and_deactivate: None,
        }
    }
}

/// An account holds a stake in full effect at `current_epoch`.
pub open spec fn spec_tranche_is_active(tranche: Option<StakeState>, current_epoch: u64) -> bool {
    tranche matches Some(StakeState::Stake(_, stake)) && spec_is_stake_active_without_history(
        &stake,
        current_epoch,
    )
}

/// An account holds a stake fully released at `current_epoch`.
pub open spec fn spec_tranche_is_released(tranche: Option<StakeState>, current_epoch: u64) -> bool {
    tranche matches Some(StakeState::Stake(_, stake)) && spec_is_stake_released_without_history(
        &stake,
        current_epoch,
    )
}

/// An idle balance is worth a tranche of its own only above the rent of a
/// stake account and the least delegation together.
pub open spec fn spec_activation_threshold(stake_rent: u64, reported_minimum_delegation: u64) -> u64 {
    if stake_rent + spec_minimum_delegation(reported_minimum_delegation) > u64::MAX {
        u64::MAX
    } else {
        (stake_rent + spec_minimum_delegation(reported_minimum_delegation)) as u64
    }
}

/// Whether an account holds a stake in full effect at `current_epoch`.
#[verifier::when_used_as_spec(spec_tranche_is_active)]
pub fn tranche_is_active(tranche: Option<StakeState>, current_epoch: u64) -> (active: bool)
    ensures
        active == spec_tranche_is_active(tranche, current_epoch),
{
    match tranche {
        Some(StakeState::Stake(_, stake)) => is_stake_active_without_history(
            &stake,
            current_epoch,
        ),
        _ => false,
    }
}

/// Whether an account holds a stake fully released at `current_epoch`.
#[verifier::when_used_as_spec(spec_tranche_is_released)]
pub fn tranche_is_released(tranche: Option<StakeState>, current_epoch: u64) -> (released: bool)
    ensures
        released == spec_tranche_is_released(tranche, current_epoch),
{
    match tranche {
        Some(StakeState::Stake(_, stake)) => is_stake_released_without_history(
            &stake,
            current_epoch,
        ),
        _ => false,
    }
}

/// The idle balance above which a new tranche is carved out: the rent of a
/// stake account and the least delegation together, at most `u64::MAX`.
#[verifier::when_used_as_spec(spec_activation_threshold)]
pub fn activation_threshold(stake_rent: u64, reported_minimum_delegation: u64) -> (threshold: u64)
    ensures
        threshold == spec_activation_threshold(stake_rent, reported_minimum_delegation),
{
    stake_rent.saturating_add(minimum_delegation(reported_minimum_delegation))
}

impl Reserve {
    /// The reserve after a refresh that saw `seen`, and what the refresh
    /// asks for.
    ///
    /// The slot is recorded in any case. Within the epoch that the reserve is
    /// accounted up to, nothing else happens. In a later epoch the reserve
    /// is brought up to that epoch, however many have passed, and once for
    /// all of them
    /// - the idle balance of its stake account, where it exceeds the
    ///   activation threshold, is carved out into a new tranche;
    /// - the tranche that was activating is merged where it is active;
    /// - the tranche that was deactivating is swept where it is released;
    /// - what waits to be claimed is split off to be deactivated, and
    ///   nothing waits any longer.
    ///
    /// `MathOverflow` where the epoch seen lies before the reserve's; in a
    /// later epoch `InvalidAccountData` or `WrongStakeStake` where the
    /// reserve's stake account holds no delegation, and `MathOverflow` where
    /// it delegates more than its balance.
    pub open spec fn epoch_refreshed(&self, seen: EpochObservation) -> Result<
        (Reserve, EpochPlan),
        LendingError,
    > {
        let refreshed = Reserve {
            last_update: LastUpdate { slot: seen.current_slot, stale: false },
            ..*self
        };
        if seen.current_epoch < self.last_epoch {
            Err(LendingError::MathOverflow)
        } else if seen.current_epoch == self.last_epoch {
            Ok((refreshed, EpochPlan::spec_idle()))
        } else {
            match spec_decoded_stake_amount(seen.reserve_stake) {
                Err(e) => Err(e),
                Ok(stake_amount) => if seen.reserve_stake_lamports < stake_amount {
                    Err(LendingError::MathOverflow)
                } else {
                    let idle = (seen.reserve_stake_lamports - stake_amount) as u64;
                    let to_claim = self.collateral.collateral_amount_to_claim;
                    Ok(
                        (
                            Reserve {
                                last_epoch: seen.current_epoch,
                                collateral: crate::collateral::ReserveCollateral {
                                    collateral_amount_to_claim: 0,
                                    ..self.collateral
                                },
                                ..refreshed
                            },
                            EpochPlan {
                                initialize_stake: if idle > spec_activation_threshold(
                                    seen.stake_rent,
                                    seen.reported_minimum_delegation,
                                ) {
                                    Some(idle)
                                } else {
                                    None
                                },
                                merge_activating: spec_tranche_is_active(
                                    seen.old_activating,
                                    seen.current_epoch,
                                ),
                                claim_deactivated: spec_tranche_is_released(
                                    seen.old_deactivating,
                                    seen.current_epoch,
                                ),
                                split_and_deactivate: if to_claim > 0 {
                                    Some(to_claim)
                                } else {
                                    None
                                },
                            },
                        ),
                    )
                },
            }
        }
    }

    /// Refreshes the reserve with what was read from the ledger, and says
    /// what is to be done with its stake accounts.
    pub fn plan_epoch_refresh(&mut self, seen: &EpochObservation) -> (plan: Result<
        EpochPlan,
        LendingError,
    >)
        ensures
            transacts(*old(self), *final(self), plan, old(self).epoch_refreshed(*seen)),
    {
        let elapsed = match self.epoch_elapsed(seen.current_epoch) {
            Ok(elapsed) => elapsed,
            Err(e) => { return Err(e); },
        };
        if elapsed == 0 {
            self.last_update.update_slot(seen.current_slot);
            return Ok(EpochPlan::idle());
        }
        let threshold = activation_threshold(seen.stake_rent, seen.reported_minimum_delegation);
        let stake_amount = match decoded_stake_amount(seen.reserve_stake) {
            Ok(amount) => amount,
            Err(e) => { return Err(e); },
        };
        let idle = match seen.reserve_stake_lamports.checked_sub(stake_amount) {
            Some(idle) => idle,
            None => { return Err(LendingError::MathOverflow); },
        };
        let to_claim = self.collateral.collateral_amount_to_claim;
        let plan = EpochPlan {
            initialize_stake: if idle > threshold {
                Some(idle)
            } else {
                None
            },
            merge_activating: tranche_is_active(seen.old_activating, seen.current_epoch),
            claim_deactivated: tranche_is_released(seen.old_deactivating, seen.current_epoch),
            split_and_deactivate: if to_claim > 0 {
                Some(to_claim)
            } else {
                None
            },
        };
        self.last_update.update_slot(seen.current_slot);
        self.last_epoch = seen.current_epoch;
        self.collateral.collateral_amount_to_claim = 0;
        Ok(plan)
    }

    /// Refreshes the reserve from the bytes of its three stake accounts and
    /// the rest of what the ledger shows, and says what is to be done with
    /// those accounts.
    pub fn refresh_reserve_epoch(
        &mut self,
        current_slot: u64,
        current_epoch: u64,
        reported_minimum_delegation: u64,
        stake_rent: u64,
        reserve_stake_lamports: u64,
        reserve_stake_data: &[u8],
        old_activating_data: &[u8],
        old_deactivating_data: &[u8],
    ) -> (plan: Result<EpochPlan, LendingError>)
        ensures
            transacts(
                *old(self),
                *final(self),
                plan,
                old(self).epoch_refreshed(
                    EpochObservation {
                        current_slot,
                        current_epoch,
                        reported_minimum_delegation,
                        stake_rent,
                        reserve_stake_lamports,
                        reserve_stake: decoded_stake_state(reserve_stake_data@),
                        old_activating: decoded_stake_state(old_activating_data@),
                        old_deactivating: decoded_stake_state(old_deactivating_data@),
                    },
                ),
            ),
    {
        let seen = EpochObservation {
            current_slot,
            current_epoch,
            reported_minimum_delegation,
            stake_rent,
            reserve_stake_lamports,
            reserve_stake: decode_stake_state(reserve_stake_data),
            old_activating: decode_stake_state(old_activating_data),
            old_deactivating: decode_stake_state(old_deactivating_data),
        };
        self.plan_epoch_refresh(&seen)
    }

    /// Records a refresh at `slot`: the reserve may be acted upon in that
    /// slot.
    pub fn refresh_reserve(&mut self, slot: u64)
        ensures
            *final(self) == (Reserve {
                last_update: LastUpdate { slot, stale: false },
                ..*old(self)
            }),
    {
        self.last_update.update_slot(slot);
    }

    /// A refresh within the epoch that the reserve is accounted up to asks
    /// for nothing and changes nothing but the slot of the last refresh, and
    /// so does the next one: whatever the accounts hold.
    pub proof fn lemma_refresh_within_epoch_is_idle(&self, seen: EpochObservation)
        requires
            seen.current_epoch == self.last_epoch,
        ensures
            self.epoch_refreshed(seen) == Ok::<(Reserve, EpochPlan), LendingError>(
                (
                    Reserve {
                        last_update: LastUpdate { slot: seen.current_slot, stale: false },
                        ..*self
                    },
                    EpochPlan::spec_idle(),
                ),
            ),
            self.epoch_refreshed(seen)->Ok_0.0.epoch_refreshed(seen) == self.epoch_refreshed(seen),
    {
    }

    /// A refresh in a later epoch brings the reserve up to that epoch,
    /// however many epochs have passed, touches no liquidity, and leaves
    /// nothing waiting to be claimed.
    pub proof fn lemma_refresh_reaches_current_epoch(&self, seen: EpochObservation)
        requires
            seen.current_epoch > self.last_epoch,
            self.epoch_refreshed(seen) is Ok,
        ensures
            self.epoch_refreshed(seen)->Ok_0.0.last_epoch == seen.current_epoch,
            self.epoch_refreshed(seen)->Ok_0.0.last_epoch - self.last_epoch
                == self.spec_epoch_elapsed(seen.current_epoch)->Ok_0,
            self.epoch_refreshed(seen)->Ok_0.0.collateral.collateral_amount_to_claim == 0,
            self.epoch_refreshed(seen)->Ok_0.0.collateral.collateral_amount
                == self.collateral.collateral_amount,
            self.epoch_refreshed(seen)->Ok_0.0.collateral.mint_total_supply
                == self.collateral.mint_total_supply,
            self.epoch_refreshed(seen)->Ok_0.0.liquidity == self.liquidity,
            self.epoch_refreshed(seen)->Ok_0.0.spec_epoch_elapsed(seen.current_epoch) == Ok::<
                u64,
                LendingError,
            >(0),
    {
    }

    /// After a refresh, a second refresh in the same epoch asks for nothing
    /// and changes nothing but the slot of the last refresh, whatever the
    /// accounts hold by then and however many epochs the first one made up
    /// for: no tranche is handled twice.
    pub proof fn lemma_second_refresh_is_idle(&self, first: EpochObservation, second: EpochObservation)
        requires
            second.current_epoch == first.current_epoch,
            self.epoch_refreshed(first) is Ok,
        ensures
            self.epoch_refreshed(first)->Ok_0.0.last_epoch == first.current_epoch,
            self.epoch_refreshed(first)->Ok_0.0.epoch_refreshed(second) == Ok::<
                (Reserve, EpochPlan),
                LendingError,
            >(
                (
                    Reserve {
                        last_update: LastUpdate { slot: second.current_slot, stale: false },
                        ..self.epoch_refreshed(first)->Ok_0.0
                    },
                    EpochPlan::spec_idle(),
                ),
            ),
    {
    }
}

} // verus!

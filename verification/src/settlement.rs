//! Resolving positions: repayment by the borrower, liquidation by anyone.

use vstd::prelude::*;
use crate::actions::{calculate_fee, marked_stale, repayment_fee, require_fresh, spec_require_fresh};
use crate::error::{transacts, LendingError};
use crate::obligation::{holds_source, index_of_source, Obligation, ObligationView};
use crate::position::ObligationPosition;
use crate::reserve::Reserve;
use crate::shares::{calculate_withdraw_amount, underlying_for_shares};
use crate::stake::{
    decoded_stake_amount,
    decoded_stake_state,
    decode_stake_state,
    spec_decoded_stake_amount,
    StakeState,
};

verus! {

/// What a repayment asks the caller to do with the reserve's stake.
#[derive(Clone, Copy, Debug, PartialEq, Eq, Structural)]
pub struct RepayPlan {
    /// The position was liquidatable: its whole deposit stays with the
    /// reserve.
    pub liquidated: bool,
    /// What the reserve keeps back, to be claimed at the next epoch.
    pub fee_to_collect: u64,
    /// Stake to split off the reserve's stake and hand to the borrower;
    /// `None` where the position was liquidated.
    pub split_amount: Option<u64>,
}

/// The reserve once the collateral pool has settled a position: `amount`
/// released, `fee` kept back, `weighted_amount` shares burned, and the
/// reserve stale.
pub open spec fn reserve_settled(reserve: Reserve, amount: u64, fee: u64, weighted_amount: u64) -> Result<
    Reserve,
    LendingError,
> {
    match reserve.collateral.settled(amount, fee, weighted_amount) {
        Err(e) => Err(e),
        Ok((collateral, _)) => Ok(marked_stale(Reserve { collateral, ..reserve })),
    }
}

/// What the borrower's share of the reserve's stake is worth and what the
/// reserve keeps of it, for a position that is repaid in good standing at
/// `current_epoch` while the reserve's stake account delegates
/// `stake_amount`: the value of the position's weight at the pool's ratio,
/// and the repayment fee on it.
pub open spec fn spec_repayment_terms(
    position: ObligationPosition,
    reserve: Reserve,
    current_epoch: u64,
    stake_amount: u64,
) -> Result<(u64, u64), LendingError> {
    let value = underlying_for_shares(
        position.weighted_deposited_amount as int,
        stake_amount as int,
        reserve.collateral.mint_total_supply as int,
    );
    if value > u64::MAX || position.deposited_amount == 0 || position.ltv_to_max_ratio()
        > u64::MAX {
        Err(LendingError::MathOverflow)
    } else {
        match repayment_fee(
            value as u64,
            position.deposited_amount,
            position.collectible_amount(current_epoch) as u64,
            position.ltv_to_max_ratio() as u64,
        ) {
            Err(e) => Err(e),
            Ok(fee) => Ok((value as u64, fee)),
        }
    }
}

/// The obligation and the reserve after the position against the reserve's
/// vote account is repaid at `current_epoch`, and what is to be done with the
/// reserve's stake account, which holds `reserve_stake`.
///
/// The reserve must be fresh and the position must exist. It leaves the
/// obligation. Where it is liquidatable its whole deposit is kept back.
/// Else the borrower's share of the stake is valued, the fee is kept back,
/// exactly one account must be at hand to take the rest, and the rest is
/// split off. Either way the reserve is stale at the end.
pub open spec fn spec_repay_against_stake(
    obligation: ObligationView,
    reserve: Reserve,
    current_slot: u64,
    current_epoch: u64,
    reserve_stake: Option<StakeState>,
    remaining_accounts: usize,
) -> Result<((ObligationView, Reserve), RepayPlan), LendingError> {
    match spec_require_fresh(&reserve, current_slot) {
        Err(e) => Err(e),
        Ok(_) => match obligation.repay_or_liquidate(reserve.vote_account, current_epoch) {
            Err(e) => Err(e),
            Ok((resolved, (is_liquidatable, _))) => {
                let position = obligation.positions[index_of_source(
                    obligation.positions,
                    reserve.vote_account,
                )];
                if is_liquidatable {
                    match reserve_settled(
                        reserve,
                        position.deposited_amount,
                        position.deposited_amount,
                        position.weighted_deposited_amount,
                    ) {
                        Err(e) => Err(e),
                        Ok(settled) => Ok(
                            (
                                (resolved, settled),
                                RepayPlan {
                                    liquidated: true,
                                    fee_to_collect: position.deposited_amount,
                                    split_amount: None,
                                },
                            ),
                        ),
                    }
                } else {
                    match spec_decoded_stake_amount(reserve_stake) {
                        Err(e) => Err(e),
                        Ok(stake_amount) => match spec_repayment_terms(
                            position,
                            reserve,
                            current_epoch,
                            stake_amount,
                        ) {
                            Err(e) => Err(e),
                            Ok((value, fee)) => match reserve_settled(
                                reserve,
                                position.deposited_amount,
                                fee,
                                position.weighted_deposited_amount,
                            ) {
                                Err(e) => Err(e),
                                Ok(settled) => if remaining_accounts != 1 {
                                    Err(LendingError::WrongRemainingAccountSchema)
                                } else if value < fee {
                                    Err(LendingError::MathOverflow)
                                } else {
                                    Ok(
                                        (
                                            (resolved, settled),
                                            RepayPlan {
                                                liquidated: false,
                                                fee_to_collect: fee,
                                                split_amount: Some((value - fee) as u64),
                                            },
                                        ),
                                    )
                                },
                            },
                        },
                    }
                }
            },
        },
    }
}

/// The obligation and the reserve after the position against the reserve's
/// vote account is liquidated at `current_epoch`: the position must exist
/// and be liquidatable (`NotLiquidatable`); it leaves the obligation, its
/// whole deposit is kept back, and the reserve is stale.
pub open spec fn spec_liquidate_position(
    obligation: ObligationView,
    reserve: Reserve,
    current_epoch: u64,
) -> Result<((ObligationView, Reserve), ()), LendingError> {
    match obligation.find_position(reserve.vote_account) {
        Err(e) => Err(e),
        Ok(index) => {
            let position = obligation.positions[index];
            if !position.is_liquidatable(current_epoch) {
                Err(LendingError::NotLiquidatable)
            } else {
                match reserve_settled(
                    reserve,
                    position.deposited_amount,
                    position.deposited_amount,
                    position.weighted_deposited_amount,
                ) {
                    Err(e) => Err(e),
                    Ok(settled) => Ok(
                        (
                            (
                                ObligationView {
                                    positions: obligation.positions.remove(index),
                                    ..obligation
                                },
                                settled,
                            ),
                            (),
                        ),
                    ),
                }
            }
        },
    }
}

/// The obligation after the positions against the vote accounts of
/// `pending` are liquidated one after the other, with the reserves as they
/// are left. An entry of `pending` that is `None` stands for an account that
/// holds no reserve (`InvalidReserveAccount`).
pub open spec fn spec_liquidate_all(
    obligation: ObligationView,
    pending: Seq<Option<Reserve>>,
    current_epoch: u64,
) -> Result<(ObligationView, Seq<Option<Reserve>>), LendingError>
    decreases pending.len(),
{
    if pending.len() == 0 {
        Ok((obligation, Seq::empty()))
    } else {
        match pending[0] {
            None => Err(LendingError::InvalidReserveAccount),
            Some(reserve) => match spec_liquidate_position(obligation, reserve, current_epoch) {
                Err(e) => Err(e),
                Ok(((left, settled), _)) => match spec_liquidate_all(
                    left,
                    pending.drop_first(),
                    current_epoch,
                ) {
                    Err(e) => Err(e),
                    Ok((last, rest)) => Ok((last, seq![Some(settled)] + rest)),
                },
            },
        }
    }
}

/// An outcome of `spec_liquidate_all` behind the reserves `done` that were
/// settled before it.
pub open spec fn after_settled(
    done: Seq<Option<Reserve>>,
    outcome: Result<(ObligationView, Seq<Option<Reserve>>), LendingError>,
) -> Result<(ObligationView, Seq<Option<Reserve>>), LendingError> {
    match outcome {
        Err(e) => Err(e),
        Ok((obligation, rest)) => Ok((obligation, done + rest)),
    }
}

/// The obligation and the reserves after every position of the obligation is
/// liquidated, one reserve for each position
/// (`WrongRemainingAccountSchema`), in the order of the reserves.
pub open spec fn spec_liquidate_positions(
    obligation: ObligationView,
    reserves: Seq<Option<Reserve>>,
    current_epoch: u64,
) -> Result<((ObligationView, Seq<Option<Reserve>>), ()), LendingError> {
    if reserves.len() != obligation.positions.len() {
        Err(LendingError::WrongRemainingAccountSchema)
    } else {
        match spec_liquidate_all(obligation, reserves, current_epoch) {
            Err(e) => Err(e),
            Ok(left) => Ok((left, ())),
        }
    }
}

/// Settles a position with the collateral pool of a copy of the reserve.
fn settle_with_reserve(reserve: &Reserve, amount: u64, fee: u64, weighted_amount: u64) -> (settled:
    Result<Reserve, LendingError>)
    ensures
        settled == reserve_settled(*reserve, amount, fee, weighted_amount),
{
    let mut next: Reserve = *reserve;
    match next.collateral.repay_or_liquidate(amount, fee, weighted_amount) {
        Ok(_) => {},
        Err(e) => { return Err(e); },
    }
    next.last_update.mark_stale();
    Ok(next)
}

/// What the borrower's share of the reserve's stake is worth, and what the
/// reserve keeps of it.
#[verifier::when_used_as_spec(spec_repayment_terms)]
pub fn repayment_terms(
    position: ObligationPosition,
    reserve: Reserve,
    current_epoch: u64,
    stake_amount: u64,
) -> (terms: Result<(u64, u64), LendingError>)
    ensures
        terms == spec_repayment_terms(position, reserve, current_epoch, stake_amount),
{
    let value = match calculate_withdraw_amount(
        reserve.collateral.mint_total_supply,
        stake_amount,
        position.weighted_deposited_amount,
    ) {
        Ok(value) => value,
        Err(e) => { return Err(e); },
    };
    let ltv_to_max_ratio = match position.get_ltv_to_max_ratio() {
        Ok(ratio) => ratio,
        Err(e) => { return Err(e); },
    };
    let after_fee = match position.get_deposit_status(current_epoch) {
        Ok((_, after_fee)) => after_fee,
        Err(e) => { return Err(e); },
    };
    match calculate_fee(value, position.deposited_amount, after_fee, ltv_to_max_ratio) {
        Ok(fee) => Ok((value, fee)),
        Err(e) => Err(e),
    }
}

/// Repays the position against the reserve's vote account, while the
/// reserve's stake account holds `reserve_stake`.
pub fn repay_against_stake(
    obligation: &mut Obligation,
    reserve: &mut Reserve,
    current_slot: u64,
    current_epoch: u64,
    reserve_stake: Option<StakeState>,
    remaining_accounts: usize,
) -> (plan: Result<RepayPlan, LendingError>)
    ensures
        transacts(
            (old(obligation)@, *old(reserve)),
            (final(obligation)@, *final(reserve)),
            plan,
            spec_repay_against_stake(
                old(obligation)@,
                *old(reserve),
                current_slot,
                current_epoch,
                reserve_stake,
                remaining_accounts,
            ),
        ),
{
    match require_fresh(reserve, current_slot) {
        Ok(_) => {},
        Err(e) => { return Err(e); },
    }
    let index = match obligation.find_index(reserve.vote_account) {
        Some(index) => index,
        None => { return Err(LendingError::InvalidObligationPositionIndex); },
    };
    let position: ObligationPosition = obligation.positions[index];
    let is_liquidatable = match position.get_deposit_status(current_epoch) {
        Ok((is_liquidatable, _)) => is_liquidatable,
        Err(e) => { return Err(e); },
    };
    if is_liquidatable {
        let settled = match settle_with_reserve(
            reserve,
            position.deposited_amount,
            position.deposited_amount,
            position.weighted_deposited_amount,
        ) {
            Ok(settled) => settled,
            Err(e) => { return Err(e); },
        };
        obligation.positions.remove(index);
        *reserve = settled;
        return Ok(
            RepayPlan {
                liquidated: true,
                fee_to_collect: position.deposited_amount,
                split_amount: None,
            },
        );
    }
    let stake_amount = match decoded_stake_amount(reserve_stake) {
        Ok(amount) => amount,
        Err(e) => { return Err(e); },
    };
    let (value, fee) = match repayment_terms(position, *reserve, current_epoch, stake_amount) {
        Ok(terms) => terms,
        Err(e) => { return Err(e); },
    };
    let settled = match settle_with_reserve(
        reserve,
        position.deposited_amount,
        fee,
        position.weighted_deposited_amount,
    ) {
        Ok(settled) => settled,
        Err(e) => { return Err(e); },
    };
    if remaining_accounts != 1 {
        return Err(LendingError::WrongRemainingAccountSchema);
    }
    let split_amount = match value.checked_sub(fee) {
        Some(v) => v,
        None => { return Err(LendingError::MathOverflow); },
    };
    obligation.positions.remove(index);
    *reserve = settled;
    Ok(RepayPlan { liquidated: false, fee_to_collect: fee, split_amount: Some(split_amount) })
}

/// Repays the position against the reserve's vote account, given the bytes
/// of the reserve's stake account.
pub fn repay_obligation_liquidity(
    obligation: &mut Obligation,
    reserve: &mut Reserve,
    current_slot: u64,
    current_epoch: u64,
    reserve_stake_data: &[u8],
    remaining_accounts: usize,
) -> (plan: Result<RepayPlan, LendingError>)
    ensures
        transacts(
            (old(obligation)@, *old(reserve)),
            (final(obligation)@, *final(reserve)),
            plan,
            spec_repay_against_stake(
                old(obligation)@,
                *old(reserve),
                current_slot,
                current_epoch,
                decoded_stake_state(reserve_stake_data@),
                remaining_accounts,
            ),
        ),
{
    let reserve_stake = decode_stake_state(reserve_stake_data);
    repay_against_stake(
        obligation,
        reserve,
        current_slot,
        current_epoch,
        reserve_stake,
        remaining_accounts,
    )
}

/// Liquidates the position against the reserve's vote account.
pub fn liquidate_position(obligation: &mut Obligation, reserve: &mut Reserve, current_epoch: u64) -> (done:
    Result<(), LendingError>)
    ensures
        transacts(
            (old(obligation)@, *old(reserve)),
            (final(obligation)@, *final(reserve)),
            done,
            spec_liquidate_position(old(obligation)@, *old(reserve), current_epoch),
        ),
{
    let (position, index) = match obligation.find_position(reserve.vote_account) {
        Ok((position, index)) => (*position, index),
        Err(e) => { return Err(e); },
    };
    let is_liquidatable = match position.get_deposit_status(current_epoch) {
        Ok((is_liquidatable, _)) => is_liquidatable,
        Err(e) => { return Err(e); },
    };
    if !is_liquidatable {
        return Err(LendingError::NotLiquidatable);
    }
    let settled = match settle_with_reserve(
        reserve,
        position.deposited_amount,
        position.deposited_amount,
        position.weighted_deposited_amount,
    ) {
        Ok(settled) => settled,
        Err(e) => { return Err(e); },
    };
    obligation.positions.remove(index);
    *reserve = settled;
    Ok(())
}

/// Liquidates every position of the obligation, each against the reserve of
/// its vote account, in the order of `reserves`. Either all of them are
/// liquidated or nothing is changed.
pub fn liquidate_positions(
    obligation: &mut Obligation,
    reserves: &mut Vec<Option<Reserve>>,
    current_epoch: u64,
) -> (done: Result<(), LendingError>)
    ensures
        transacts(
            (old(obligation)@, old(reserves)@),
            (final(obligation)@, final(reserves)@),
            done,
            spec_liquidate_positions(old(obligation)@, old(reserves)@, current_epoch),
        ),
{
    if reserves.len() != obligation.positions.len() {
        return Err(LendingError::WrongRemainingAccountSchema);
    }
    let mut work = obligation.snapshot();
    let mut settled: Vec<Option<Reserve>> = Vec::new();
    let mut k: usize = 0;
    assert(reserves@.skip(0) == reserves@);
    assert(settled@ + spec_liquidate_all(work@, reserves@, current_epoch)->Ok_0.1
        == spec_liquidate_all(work@, reserves@, current_epoch)->Ok_0.1);
    while k < reserves.len()
        invariant
            k <= reserves.len(),
            settled@.len() == k,
            *reserves == *old(reserves),
            *obligation == *old(obligation),
            old(reserves)@.len() == old(obligation)@.positions.len(),
            after_settled(
                settled@,
                spec_liquidate_all(work@, reserves@.skip(k as int), current_epoch),
            ) == spec_liquidate_all(old(obligation)@, old(reserves)@, current_epoch),
        decreases reserves.len() - k,
    {
        let ghost pending = reserves@.skip(k as int);
        let ghost before = work@;
        let ghost done_before = settled@;
        assert(pending.len() > 0 && pending[0] == reserves@[k as int]);
        assert(pending.drop_first() == reserves@.skip(k + 1));
        let mut reserve: Reserve = match reserves[k] {
            Some(reserve) => reserve,
            None => { return Err(LendingError::InvalidReserveAccount); },
        };
        match liquidate_position(&mut work, &mut reserve, current_epoch) {
            Ok(_) => {},
            Err(e) => { return Err(e); },
        }
        settled.push(Some(reserve));
        proof {
            let rest = spec_liquidate_all(work@, reserves@.skip(k + 1), current_epoch);
            if rest is Ok {
                assert(done_before + (seq![Some(reserve)] + rest->Ok_0.1) == settled@
                    + rest->Ok_0.1);
            }
        }
        k += 1;
    }
    assert(reserves@.skip(k as int).len() == 0);
    assert(settled@ + Seq::<Option<Reserve>>::empty() == settled@);
    *obligation = work;
    *reserves = settled;
    Ok(())
}

} // verus!

//! What the lending logic reads from the accounts of the native staking
//! program.

use vstd::prelude::*;
use solana_program::borsh1::try_from_slice_unchecked;
use solana_program::native_token::LAMPORTS_PER_SOL;
use solana_program::stake::state::StakeStateV2;
use crate::error::LendingError;

verus! {

/// To which extent, and since when, a stake is delegated.
#[derive(Clone, Copy, Debug, PartialEq, Eq, Structural)]
pub struct Delegation {
    /// Stake delegated.
    pub stake: u64,
    /// Epoch in which the stake was activated.
    pub activation_epoch: u64,
    /// Epoch in which the stake was deactivated; `u64::MAX` while it is not.
    pub deactivation_epoch: u64,
}

/// The delegated part of a stake account.
#[derive(Clone, Copy, Debug, PartialEq, Eq, Structural)]
pub struct Stake {
    /// The delegation.
    pub delegation: Delegation,
    /// Vote credits seen when the stake was delegated or last redeemed.
    pub credits_observed: u64,
}

/// The fixed part of an initialized stake account.
#[derive(Clone, Copy, Debug, PartialEq, Eq, Structural)]
pub struct Meta {
    /// Balance that keeps the account exempt from rent.
    pub rent_exempt_reserve: u64,
}

/// What a stake account holds.
#[derive(Clone, Copy, Debug, PartialEq, Eq, Structural)]
pub enum StakeState {
    /// Nothing yet.
    Uninitialized,
    /// Authorities, but no delegation.
    Initialized(Meta),
    /// A delegation.
    Stake(Meta, Stake),
    /// The rewards pool.
    RewardsPool,
}

/// What the bytes of a stake account decode to; `None` where they decode to
/// nothing.
pub uninterp spec fn decoded_stake_state(data: Seq<u8>) -> Option<StakeState>;

/// Decodes the bytes of a stake account with
/// `solana_program::borsh1::try_from_slice_unchecked::<StakeStateV2>`, which
/// reads a state from the front of `data` and ignores what follows it. The
/// contract names the outcome `decoded_stake_state(data@)`: the same bytes
/// always decode alike. Nothing is claimed about which bytes decode to what.
/// Of a decoded state only the fields of this module's types are kept.
#[verifier::external_body]
pub(crate) fn decode_stake_state(data: &[u8]) -> (state: Option<StakeState>)
    ensures
        state == decoded_stake_state(data@),
{
    match try_from_slice_unchecked::<StakeStateV2>(data) {
        Ok(StakeStateV2::Uninitialized) => Some(StakeState::Uninitialized),
        Ok(StakeStateV2::Initialized(m)) => Some(StakeState::Initialized(Meta { rent_exempt_reserve: m.rent_exempt_reserve })),
        Ok(StakeStateV2::Stake(m, s, _)) => {
            let d = s.delegation;
            let delegation = Delegation { stake: d.stake, activation_epoch: d.activation_epoch, deactivation_epoch: d.deactivation_epoch };
            let meta = Meta { rent_exempt_reserve: m.rent_exempt_reserve };
            Some(StakeState::Stake(meta, Stake { delegation, credits_observed: s.credits_observed }))
        },
        Ok(StakeStateV2::RewardsPool) => Some(StakeState::RewardsPool),
        Err(_) => None,
    }
}

/// Hands out `solana_program::native_token::LAMPORTS_PER_SOL`, the number of
/// lamports in one SOL, which that crate defines as 1,000,000,000.
#[verifier::external_body]
fn lamports_per_sol() -> (lamports: u64)
    ensures
        lamports == 1_000_000_000,
{
    LAMPORTS_PER_SOL
}

/// The state that decoding handed back: `InvalidAccountData` where the
/// bytes decoded to nothing.
pub open spec fn spec_decoded_or_invalid(decoded: Option<StakeState>) -> Result<
    StakeState,
    LendingError,
> {
    match decoded {
        Some(state) => Ok(state),
        None => Err(LendingError::InvalidAccountData),
    }
}

/// The state that decoding handed back: `InvalidAccountData` where the
/// bytes decoded to nothing.
#[verifier::when_used_as_spec(spec_decoded_or_invalid)]
pub fn decoded_or_invalid(decoded: Option<StakeState>) -> (state: Result<StakeState, LendingError>)
    ensures
        state == spec_decoded_or_invalid(decoded),
{
    match decoded {
        Some(state) => Ok(state),
        None => Err(LendingError::InvalidAccountData),
    }
}

impl StakeState {
    /// Whether the account holds a delegation.
    pub open spec fn spec_is_stake(&self) -> bool {
        *self is Stake
    }

    /// The two parts of an account that holds a delegation;
    /// `WrongStakeStake` for any other.
    pub open spec fn spec_stake_parts(&self) -> Result<(Meta, Stake), LendingError> {
        match *self {
            StakeState::Stake(meta, stake) => Ok((meta, stake)),
            _ => Err(LendingError::WrongStakeStake),
        }
    }

    /// The stake that the account delegates; `WrongStakeStake` where it
    /// holds no delegation.
    pub open spec fn spec_delegated_amount(&self) -> Result<u64, LendingError> {
        match *self {
            StakeState::Stake(_, stake) => Ok(stake.delegation.stake),
            _ => Err(LendingError::WrongStakeStake),
        }
    }

    /// Whether the account holds a delegation.
    #[verifier::when_used_as_spec(spec_is_stake)]
    pub fn is_stake(&self) -> (delegated: bool)
        ensures
            delegated == self.spec_is_stake(),
    {
        match self {
            StakeState::Stake(_, _) => true,
            _ => false,
        }
    }

    /// The two parts of an account that holds a delegation.
    #[verifier::when_used_as_spec(spec_stake_parts)]
    pub fn stake_parts(&self) -> (parts: Result<(Meta, Stake), LendingError>)
        ensures
            parts == self.spec_stake_parts(),
    {
        match self {
            StakeState::Stake(meta, stake) => Ok((*meta, *stake)),
            _ => Err(LendingError::WrongStakeStake),
        }
    }

    /// The stake that the account delegates.
    #[verifier::when_used_as_spec(spec_delegated_amount)]
    pub fn delegated_amount(&self) -> (amount: Result<u64, LendingError>)
        ensures
            amount == self.spec_delegated_amount(),
    {
        match self {
            StakeState::Stake(_, stake) => Ok(stake.delegation.stake),
            _ => Err(LendingError::WrongStakeStake),
        }
    }
}

/// The stake that a decoded account delegates: `InvalidAccountData` where
/// the bytes decoded to nothing, `WrongStakeStake` where they hold no
/// delegation.
pub open spec fn spec_decoded_stake_amount(decoded: Option<StakeState>) -> Result<
    u64,
    LendingError,
> {
    match decoded {
        None => Err(LendingError::InvalidAccountData),
        Some(state) => state.spec_delegated_amount(),
    }
}

/// The stake that a decoded account delegates.
#[verifier::when_used_as_spec(spec_decoded_stake_amount)]
pub fn decoded_stake_amount(decoded: Option<StakeState>) -> (amount: Result<u64, LendingError>)
    ensures
        amount == spec_decoded_stake_amount(decoded),
{
    match decoded {
        None => Err(LendingError::InvalidAccountData),
        Some(state) => state.delegated_amount(),
    }
}

/// Whether the bytes of a stake account hold a delegation;
/// `InvalidAccountData` where they decode to nothing.
pub fn is_stake_state_initialized(data: &[u8]) -> (initialized: Result<bool, LendingError>)
    ensures
        initialized == match decoded_stake_state(data@) {
            Some(state) => Ok::<bool, LendingError>(state.spec_is_stake()),
            None => Err::<bool, LendingError>(LendingError::InvalidAccountData),
        },
{
    match decoded_or_invalid(decode_stake_state(data)) {
        Ok(state) => Ok(state.is_stake()),
        Err(e) => Err(e),
    }
}

/// The two parts of the delegation that the bytes of a stake account hold:
/// `InvalidAccountData` where they decode to nothing, `WrongStakeStake`
/// where they hold no delegation.
pub fn get_stake_state(data: &[u8]) -> (parts: Result<(Meta, Stake), LendingError>)
    ensures
        parts == match decoded_stake_state(data@) {
            Some(state) => state.spec_stake_parts(),
            None => Err::<(Meta, Stake), LendingError>(LendingError::InvalidAccountData),
        },
{
    match decoded_or_invalid(decode_stake_state(data)) {
        Ok(state) => state.stake_parts(),
        Err(e) => Err(e),
    }
}

/// The stake that the bytes of a stake account delegate.
pub fn get_stake_amount(data: &[u8]) -> (amount: Result<u64, LendingError>)
    ensures
        amount == spec_decoded_stake_amount(decoded_stake_state(data@)),
{
    decoded_stake_amount(decode_stake_state(data))
}

/// Whether a stake was activated before `current_epoch` and has not been
/// deactivated: without the stake history, that is a stake in full effect.
pub open spec fn spec_is_stake_active_without_history(stake: &Stake, current_epoch: u64) -> bool {
    stake.delegation.activation_epoch < current_epoch && stake.delegation.deactivation_epoch
        == u64::MAX
}

/// Whether a stake was activated before `current_epoch` and has not been
/// deactivated.
#[verifier::when_used_as_spec(spec_is_stake_active_without_history)]
pub fn is_stake_active_without_history(stake: &Stake, current_epoch: u64) -> (active: bool)
    ensures
        active == spec_is_stake_active_without_history(stake, current_epoch),
{
    stake.delegation.activation_epoch < current_epoch && stake.delegation.deactivation_epoch
        == u64::MAX
}

/// Whether a stake was deactivated before `current_epoch`: without the
/// stake history, that is a stake fully released.
pub open spec fn spec_is_stake_released_without_history(stake: &Stake, current_epoch: u64) -> bool {
    stake.delegation.deactivation_epoch < current_epoch
}

/// Whether a stake was deactivated before `current_epoch`.
#[verifier::when_used_as_spec(spec_is_stake_released_without_history)]
pub fn is_stake_released_without_history(stake: &Stake, current_epoch: u64) -> (released: bool)
    ensures
        released == spec_is_stake_released_without_history(stake, current_epoch),
{
    stake.delegation.deactivation_epoch < current_epoch
}

/// The least stake that a pool delegates: what the stake program reports,
/// and never less than one SOL.
pub open spec fn spec_minimum_delegation(reported: u64) -> u64 {
    if reported >= 1_000_000_000 {
        reported
    } else {
        1_000_000_000
    }
}

/// The least stake that a pool delegates, given what the stake program
/// reports as its own minimum.
#[verifier::when_used_as_spec(spec_minimum_delegation)]
pub fn minimum_delegation(reported: u64) -> (minimum: u64)
    ensures
        minimum == spec_minimum_delegation(reported),
{
    let floor: u64 = lamports_per_sol();
    if reported >= floor {
        reported
    } else {
        floor
    }
}

} // verus!

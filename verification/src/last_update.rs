//! When a reserve was last refreshed, and whether it may be acted upon.

use vstd::prelude::*;
use core::cmp::Ordering;
use vstd::std_specs::cmp::{PartialEqSpecImpl, PartialOrdSpecImpl};
use crate::error::LendingError;

verus! {

/// Number of slots after which a refreshed reserve is stale again.
pub const STALE_AFTER_SLOTS_ELAPSED: u64 = 1;

/// The slot of the last refresh, and a mark that forces a new one.
///
/// Two of them compare by their slots alone.
#[derive(Clone, Copy, Debug)]
pub struct LastUpdate {
    /// Slot of the last refresh.
    pub slot: u64,
    /// Set by every action that changes balances, cleared by a refresh.
    pub stale: bool,
}

impl Default for LastUpdate {
    fn default() -> (last_update: Self)
        ensures
            last_update == (LastUpdate { slot: 0, stale: false }),
    {
        LastUpdate { slot: 0, stale: false }
    }
}

impl LastUpdate {
    /// Slots from the last refresh to `slot`; `MathOverflow` where `slot`
    /// lies before the last refresh.
    pub open spec fn spec_slots_elapsed(&self, slot: u64) -> Result<u64, LendingError> {
        if slot < self.slot {
            Err(LendingError::MathOverflow)
        } else {
            Ok((slot - self.slot) as u64)
        }
    }

    /// Whether the state is too old to act upon at `slot`: marked stale, or
    /// refreshed `STALE_AFTER_SLOTS_ELAPSED` slots ago or more;
    /// `MathOverflow` where `slot` lies before the last refresh.
    pub open spec fn spec_is_stale(&self, slot: u64) -> Result<bool, LendingError> {
        if slot < self.slot {
            Err(LendingError::MathOverflow)
        } else {
            Ok(self.stale || slot - self.slot >= STALE_AFTER_SLOTS_ELAPSED)
        }
    }

    /// A state refreshed at `slot` that is stale all the same, so that the
    /// first action waits for a refresh.
    pub fn new(slot: u64) -> (last_update: Self)
        ensures
            last_update == (LastUpdate { slot, stale: true }),
    {
        LastUpdate { slot, stale: true }
    }

    /// Slots from the last refresh to `slot`.
    #[verifier::when_used_as_spec(spec_slots_elapsed)]
    pub fn slots_elapsed(&self, slot: u64) -> (elapsed: Result<u64, LendingError>)
        ensures
            elapsed == self.spec_slots_elapsed(slot),
    {
        match slot.checked_sub(self.slot) {
            Some(elapsed) => Ok(elapsed),
            None => Err(LendingError::MathOverflow),
        }
    }

    /// Records a refresh at `slot` and clears the mark.
    pub fn update_slot(&mut self, slot: u64)
        ensures
            *final(self) == (LastUpdate { slot, stale: false }),
    {
        self.slot = slot;
        self.stale = false;
    }

    /// Sets the mark and nothing else.
    pub fn mark_stale(&mut self)
        ensures
            *final(self) == (LastUpdate { slot: old(self).slot, stale: true }),
    {
        self.stale = true;
    }

    /// Whether the state is too old to act upon at `slot`.
    #[verifier::when_used_as_spec(spec_is_stale)]
    pub fn is_stale(&self, slot: u64) -> (stale: Result<bool, LendingError>)
        ensures
            stale == self.spec_is_stale(slot),
    {
        match self.slots_elapsed(slot) {
            Ok(elapsed) => Ok(self.stale || elapsed >= STALE_AFTER_SLOTS_ELAPSED),
            Err(e) => Err(e),
        }
    }

    /// After a refresh the state is fresh in the slot of the refresh, and
    /// stale from the next slot on; once marked it is stale until the next
    /// refresh.
    pub proof fn lemma_fresh_only_in_refresh_slot(&self, slot: u64)
        requires
            slot >= self.slot,
        ensures
            self.spec_is_stale(slot) == Ok::<bool, LendingError>(self.stale || slot > self.slot),
    {
    }
}

impl PartialEq for LastUpdate {
    fn eq(&self, other: &Self) -> (same: bool) {
        self.slot == other.slot
    }
}

impl PartialEqSpecImpl for LastUpdate {
    open spec fn obeys_eq_spec() -> bool {
        true
    }

    open spec fn eq_spec(&self, other: &Self) -> bool {
        self.slot == other.slot
    }
}

impl PartialOrd for LastUpdate {
    fn partial_cmp(&self, other: &Self) -> (order: Option<Ordering>) {
        if self.slot < other.slot {
            Some(Ordering::Less)
        } else if self.slot == other.slot {
            Some(Ordering::Equal)
        } else {
            Some(Ordering::Greater)
        }
    }
}

impl PartialOrdSpecImpl for LastUpdate {
    open spec fn obeys_partial_cmp_spec() -> bool {
        true
    }

    open spec fn partial_cmp_spec(&self, other: &Self) -> Option<Ordering> {
        if self.slot < other.slot {
            Some(Ordering::Less)
        } else if self.slot == other.slot {
            Some(Ordering::Equal)
        } else {
            Some(Ordering::Greater)
        }
    }
}

} // verus!

use icarus_lending::last_update::{LastUpdate, STALE_AFTER_SLOTS_ELAPSED};
use icarus_lending::LendingError;

#[test]
fn new_state_is_stale() {
    let last_update = LastUpdate::new(10);
    assert_eq!(last_update.slot, 10);
    assert!(last_update.stale);
    assert_eq!(last_update.is_stale(10), Ok(true));
}

#[test]
fn refresh_makes_fresh_for_one_slot() {
    let mut last_update = LastUpdate::new(10);
    last_update.update_slot(12);
    assert_eq!(last_update.slot, 12);
    assert!(!last_update.stale);
    assert_eq!(last_update.is_stale(12), Ok(false));
    assert_eq!(last_update.is_stale(12 + STALE_AFTER_SLOTS_ELAPSED), Ok(true));
    assert_eq!(last_update.is_stale(100), Ok(true));
}

#[test]
fn mark_stale_sets_only_the_mark() {
    let mut last_update = LastUpdate::new(10);
    last_update.update_slot(12);
    last_update.mark_stale();
    assert_eq!(last_update.slot, 12);
    assert!(last_update.stale);
    assert_eq!(last_update.is_stale(12), Ok(true));
}

#[test]
fn clock_going_backward_is_an_error() {
    let mut last_update = LastUpdate::new(10);
    assert_eq!(last_update.slots_elapsed(9), Err(LendingError::MathOverflow));
    assert_eq!(last_update.is_stale(9), Err(LendingError::MathOverflow));
    last_update.update_slot(10);
    assert_eq!(last_update.is_stale(9), Err(LendingError::MathOverflow));
    assert_eq!(last_update.slots_elapsed(15), Ok(5));
}

#[test]
fn comparison_goes_by_slot() {
    let mut a = LastUpdate::new(10);
    let b = LastUpdate::new(10);
    a.update_slot(10);
    assert!(a == b);
    assert!(!(a < b));
    assert!(a <= b);
    let c = LastUpdate::new(11);
    assert!(a < c);
    assert!(c > b);
    assert!(a != c);
}

#[test]
fn default_is_slot_zero_and_fresh() {
    let last_update = LastUpdate::default();
    assert_eq!(last_update.slot, 0);
    assert!(!last_update.stale);
}

//! The device bus on concrete allocations: distinct handles, reuse of
//! a freed slot, and exhaustion beyond capacity.

use vgp_server::bus::{BusError, DeviceBus};

#[test]
fn two_allocations_yield_distinct_handles() {
    let mut bus = DeviceBus::new(2);
    let first = bus.claim_slot().unwrap();
    let second = bus.claim_slot().unwrap();
    assert_ne!(first, second);
    assert!(bus.slot_used(first));
    assert!(bus.slot_used(second));
}

#[test]
fn allocation_beyond_capacity_is_exhausted() {
    let mut bus = DeviceBus::new(2);
    bus.claim_slot().unwrap();
    bus.claim_slot().unwrap();
    assert_eq!(bus.claim_slot(), Err(BusError::Exhausted));
    // The refusal changed nothing; a later free still works.
    assert_eq!(bus.capacity(), 2);
}

#[test]
fn freed_slot_may_be_reused() {
    let mut bus = DeviceBus::new(2);
    let first = bus.claim_slot().unwrap();
    let second = bus.claim_slot().unwrap();
    bus.free_slot(first);
    assert!(!bus.slot_used(first));
    let third = bus.claim_slot().unwrap();
    assert_eq!(third, first);
    assert_ne!(third, second);
}

#[test]
fn claims_take_the_lowest_free_slot() {
    let mut bus = DeviceBus::new(3);
    assert_eq!(bus.claim_slot(), Ok(0));
    assert_eq!(bus.claim_slot(), Ok(1));
    assert_eq!(bus.claim_slot(), Ok(2));
    bus.free_slot(1);
    assert_eq!(bus.claim_slot(), Ok(1));
}

#[test]
fn zero_capacity_bus_is_always_exhausted() {
    let mut bus = DeviceBus::new(0);
    assert_eq!(bus.claim_slot(), Err(BusError::Exhausted));
}

//! Scenario tests for the interrupt-controller manager and its acknowledge
//! protocol.

use starry_core::errors::KernelError;
use starry_core::gic::{GicManager, InterruptPriority, SPURIOUS_INTERRUPT};

#[test]
fn enable_then_query_then_disable() {
    let mut gic = GicManager::new();
    gic.init(true).unwrap();
    assert!(!gic.is_interrupt_enabled(42));
    gic.enable_interrupt(42, InterruptPriority::new(0x40)).unwrap();
    assert!(gic.is_interrupt_enabled(42));
    // neighbours in the same bitmap word are untouched
    assert!(!gic.is_interrupt_enabled(41));
    assert!(!gic.is_interrupt_enabled(43));
    gic.disable_interrupt(42).unwrap();
    assert!(!gic.is_interrupt_enabled(42));
}

#[test]
fn out_of_range_interrupt_ids_are_rejected() {
    let mut gic = GicManager::new();
    gic.init(true).unwrap();
    assert_eq!(
        gic.enable_interrupt(1024, InterruptPriority::new(0)),
        Err(KernelError::InvalidParameter)
    );
    assert_eq!(gic.disable_interrupt(4096), Err(KernelError::InvalidParameter));
    assert!(!gic.is_interrupt_enabled(1024));
    assert_eq!(gic.set_interrupt_target(1024, 1), Err(KernelError::InvalidParameter));
    assert_eq!(gic.register_interrupt_handler(2048), Err(KernelError::InvalidParameter));
}

#[test]
fn re_enabling_at_a_different_priority_is_refused() {
    let mut gic = GicManager::new();
    gic.init(true).unwrap();
    gic.enable_interrupt(100, InterruptPriority::new(0x20)).unwrap();
    // same priority again: an idempotent success
    assert!(gic.enable_interrupt(100, InterruptPriority::new(0x20)).is_ok());
    // a different priority without disabling first: refused
    assert_eq!(
        gic.enable_interrupt(100, InterruptPriority::new(0x30)),
        Err(KernelError::AlreadyInState)
    );
    // after disabling, the new priority is accepted
    gic.disable_interrupt(100).unwrap();
    assert!(gic.enable_interrupt(100, InterruptPriority::new(0x30)).is_ok());
}

#[test]
fn claimed_interrupts_are_acknowledged_in_order() {
    let mut gic = GicManager::new();
    gic.init(true).unwrap();
    gic.register_interrupt_handler(27).unwrap();
    gic.raise_interrupt(27);
    gic.raise_interrupt(32);
    gic.raise_interrupt(27);
    assert_eq!(gic.pending_count(), 3);

    let first = gic.get_interrupt_id();
    assert_eq!(first, 27);
    gic.end_interrupt(first);

    let handled = gic.handle_interrupt().expect("one interrupt is pending");
    assert_eq!(handled.0, 32);
    assert!(!handled.1);

    let last = gic.handle_interrupt().expect("one interrupt is pending");
    assert_eq!(last.0, 27);
    assert!(last.1);

    assert_eq!(gic.pending_count(), 0);
    assert_eq!(gic.claim_count(), 3);
    assert_eq!(gic.eoi_count(), 3);
    assert!(gic.handle_interrupt().is_none());
}

#[test]
fn draining_k_raised_interrupts_yields_k_matched_pairs() {
    let mut gic = GicManager::new();
    gic.init(true).unwrap();
    for id in [5u32, 9, 13, 700, 5] {
        gic.raise_interrupt(id);
    }
    let drained = gic.handle_pending_interrupts();
    assert_eq!(drained, 5);
    // exactly five claims and five end-of-interrupt writes occurred
    assert_eq!(gic.claim_count(), 5);
    assert_eq!(gic.eoi_count(), 5);
    assert_eq!(gic.pending_count(), 0);
}

#[test]
fn spurious_identifier_comes_back_when_nothing_is_pending() {
    let mut gic = GicManager::new();
    gic.init(true).unwrap();
    assert_eq!(gic.get_interrupt_id(), SPURIOUS_INTERRUPT);
    assert_eq!(gic.claim_count(), 0);
}

#[test]
fn software_interrupts_are_limited_to_the_sgi_range() {
    let mut gic = GicManager::new();
    gic.init(true).unwrap();
    assert!(gic.send_software_interrupt(1, 7).is_ok());
    assert_eq!(gic.pending_count(), 1);
    assert_eq!(gic.send_software_interrupt(1, 16), Err(KernelError::InvalidParameter));
    assert_eq!(gic.pending_count(), 1);
    let pair = gic.handle_interrupt().unwrap();
    assert_eq!(pair.0, 7);
}

#[test]
fn software_interrupt_requests_record_their_target_core() {
    let mut gic = GicManager::new();
    gic.init(true).unwrap();
    gic.send_software_interrupt(3, 7).unwrap();
    gic.send_software_interrupt(0, 2).unwrap();
    assert_eq!(gic.sgi_count(), 2);
    assert_eq!(gic.sgi_request(0), Some((3, 7)));
    assert_eq!(gic.sgi_request(1), Some((0, 2)));
    assert_eq!(gic.sgi_request(2), None);
    // a refused request leaves the log alone
    let _ = gic.send_software_interrupt(5, 20);
    assert_eq!(gic.sgi_count(), 2);
}

#[test]
fn redistributor_wake_timeout_is_reported() {
    let mut gic = GicManager::new();
    // the wake poll exhausted its budget with the core still asleep
    let brought_up = gic.init(false);
    assert_eq!(brought_up, Err(KernelError::HardwareTimeout));
    // the distributor reset still happened, but the CPU interface is off
    assert!(!gic.is_interrupt_enabled(27));
    // a retry whose poll succeeds completes initialisation
    assert!(gic.init(true).is_ok());
}

#[test]
fn boot_interrupt_setup_enables_timer_and_console() {
    let gic = starry_core::gic::init();
    assert!(gic.is_interrupt_enabled(27));
    assert!(gic.is_interrupt_enabled(32));
    assert!(!gic.is_interrupt_enabled(33));
}

#[test]
fn interrupt_priorities_expose_their_values() {
    assert_eq!(InterruptPriority::new(9).value(), 9);
    assert_eq!(InterruptPriority::highest().value(), 0);
    assert_eq!(InterruptPriority::default_priority().value(), 0x80);
    assert_eq!(InterruptPriority::lowest().value(), 0xFF);
}

#[test]
fn interrupt_targets_are_recorded() {
    let mut gic = GicManager::new();
    gic.init(true).unwrap();
    assert!(gic.set_interrupt_target(40, 0b0000_0110).is_ok());
}

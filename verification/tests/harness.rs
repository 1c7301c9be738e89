//! Behavior of the leak harness: the single-slot store and its reports.

use memdiag::leak::{make_filled_buffer, LeakSlot};

#[test]
fn retain_then_clear_releases_all() {
    let mut slot = LeakSlot::new();
    let retained = slot.allocate_and_retain(5);
    assert_eq!(retained, "Allocated and leaked 5 MB");
    let cleared = slot.clear_retained();
    assert_eq!(cleared, "Cleared 5242880 bytes of leaked memory");
}

#[test]
fn retain_zero_is_legal_and_clears_to_zero_bytes() {
    let mut slot = LeakSlot::new();
    let retained = slot.allocate_and_retain(0);
    assert_eq!(retained, "Allocated and leaked 0 MB");
    let cleared = slot.clear_retained();
    assert_eq!(cleared, "Cleared 0 bytes of leaked memory");
}

#[test]
fn clear_of_empty_slot_reports_nothing_to_clear() {
    let mut slot = LeakSlot::new();
    assert_eq!(slot.clear_retained(), "No leaked memory to clear");
}

#[test]
fn clear_twice_reports_nothing_the_second_time() {
    let mut slot = LeakSlot::new();
    let _ = slot.allocate_and_retain(1);
    let first = slot.clear_retained();
    assert_eq!(first, "Cleared 1048576 bytes of leaked memory");
    let second = slot.clear_retained();
    assert_eq!(second, "No leaked memory to clear");
}

#[test]
fn retain_twice_replaces_instead_of_appending() {
    let mut slot = LeakSlot::new();
    let _ = slot.allocate_and_retain(3);
    let _ = slot.allocate_and_retain(2);
    let cleared = slot.clear_retained();
    assert_eq!(cleared, "Cleared 2097152 bytes of leaked memory");
}

#[test]
fn replace_hands_back_the_previous_buffer() {
    let mut slot = LeakSlot::new();
    let first = slot.replace_buffer(vec![1u8, 2, 3]);
    assert!(first.is_none());
    let second = slot.replace_buffer(vec![9u8]);
    assert_eq!(second, Some(vec![1u8, 2, 3]));
}

#[test]
fn take_empties_the_slot() {
    let mut slot = LeakSlot::new();
    let _ = slot.replace_buffer(vec![7u8; 4]);
    let taken = slot.take_buffer();
    assert_eq!(taken, Some(vec![7u8; 4]));
    assert!(slot.take_buffer().is_none());
}

#[test]
fn mixed_sequences_always_leave_a_valid_slot() {
    let mut slot = LeakSlot::new();
    let _ = slot.allocate_and_retain(1);
    let _ = slot.allocate_and_retain(4);
    assert_eq!(slot.clear_retained(), "Cleared 4194304 bytes of leaked memory");
    assert_eq!(slot.clear_retained(), "No leaked memory to clear");
    let _ = slot.allocate_and_retain(2);
    assert_eq!(slot.take_buffer().map(|b| b.len()), Some(2 * 1024 * 1024));
    assert!(slot.take_buffer().is_none());
}

#[test]
fn filled_buffer_has_the_deterministic_pattern() {
    let v = make_filled_buffer(600);
    assert_eq!(v.len(), 600);
    assert_eq!(v[0], 0);
    assert_eq!(v[1], 1);
    assert_eq!(v[255], 255);
    assert_eq!(v[256], 0);
    assert_eq!(v[599], (599 % 256) as u8);
}

#[test]
fn filled_buffer_of_zero_bytes_is_empty() {
    let v = make_filled_buffer(0);
    assert!(v.is_empty());
}

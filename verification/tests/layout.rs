use aligned_utils::layout::{checked_layout, is_power_of_two, is_valid_layout, layout};

#[test]
fn check_power_of_two_values() {
    assert!(!is_power_of_two(0));
    assert!(is_power_of_two(1));
    assert!(is_power_of_two(2));
    assert!(!is_power_of_two(3));
    assert!(is_power_of_two(4096));
    assert!(!is_power_of_two(4097));
    let high: usize = 1usize << (usize::BITS - 1);
    assert!(is_power_of_two(high));
    assert!(!is_power_of_two(usize::MAX));
}

#[test]
fn check_layout_accessors() {
    let l = layout(16, 8);
    assert_eq!(l.size(), 16);
    assert_eq!(l.align(), 8);
}

#[test]
fn check_valid_layouts() {
    assert!(is_valid_layout(0, 1));
    assert!(is_valid_layout(8, 8));
    assert!(is_valid_layout(8, 4096));
    assert!(checked_layout(1024, 64).is_some());
}

#[test]
fn check_invalid_layout_zero_align() {
    assert!(!is_valid_layout(1, 0));
    assert!(checked_layout(1, 0).is_none());
}

#[test]
fn check_invalid_layout_zero_len_zero_align() {
    assert!(!is_valid_layout(0, 0));
    assert!(checked_layout(0, 0).is_none());
}

#[test]
fn check_invalid_layout_align_not_power_of_2() {
    assert!(!is_valid_layout(1, 3));
    assert!(checked_layout(1, 3).is_none());
}

#[test]
fn check_invalid_layout_overflow() {
    let high: usize = 1usize << (usize::BITS - 1);
    assert!(!is_valid_layout(high + 1, high));
    assert!(checked_layout(high + 1, high).is_none());
}

use shelf_nav::shelf::ShelfPosition;

fn sp(level: u32, start: i32, end: i32) -> ShelfPosition {
    ShelfPosition { level, start, end }
}

#[test]
fn new_keeps_the_three_fields() {
    assert_eq!(ShelfPosition::new(3, -7, 3), Some(sp(3, -7, 3)));
    assert_eq!(ShelfPosition::new(0, i32::MIN, i32::MAX), Some(sp(0, i32::MIN, i32::MAX)));
}

#[test]
fn new_rejects_an_empty_span() {
    assert_eq!(ShelfPosition::new(1, 4, 4), None);
}

#[test]
fn new_rejects_a_reversed_span() {
    assert_eq!(ShelfPosition::new(1, 5, 4), None);
    assert_eq!(ShelfPosition::new(1, i32::MAX, i32::MIN), None);
}

#[test]
fn is_well_formed_follows_the_span() {
    assert!(sp(0, -8, 8).is_well_formed());
    assert!(sp(0, 7, 8).is_well_formed());
    assert!(!sp(0, 8, 8).is_well_formed());
    assert!(!sp(0, 9, 8).is_well_formed());
}

#[test]
fn shelves_are_equal_by_value() {
    assert_eq!(sp(1, 3, 7), sp(1, 3, 7));
    assert_ne!(sp(1, 3, 7), sp(2, 3, 7));
    assert_ne!(sp(1, 3, 7), sp(1, 2, 7));
    assert_ne!(sp(1, 3, 7), sp(1, 3, 8));
}

#[test]
fn midpoint_sum_adds_the_edges() {
    assert_eq!(sp(0, -8, 8).midpoint_sum(), 0);
    assert_eq!(sp(1, -12, 1).midpoint_sum(), -11);
    assert_eq!(sp(1, 3, 7).midpoint_sum(), 10);
}

#[test]
fn midpoint_sum_does_not_overflow() {
    assert_eq!(sp(0, i32::MAX - 1, i32::MAX).midpoint_sum(), 4294967293);
    assert_eq!(sp(0, i32::MIN, i32::MIN + 1).midpoint_sum(), -4294967295);
}

#[test]
fn center_rounds_toward_zero() {
    assert_eq!(sp(0, -8, 8).center(), 0);
    assert_eq!(sp(1, 3, 7).center(), 5);
    assert_eq!(sp(1, -12, 1).center(), -5);
    assert_eq!(sp(4, 1, 4).center(), 2);
    assert_eq!(sp(5, -7, -3).center(), -5);
    assert_eq!(sp(5, -1, 2).center(), 0);
    assert_eq!(sp(5, -2, 1).center(), 0);
}

#[test]
fn center_of_extreme_spans() {
    assert_eq!(sp(0, i32::MAX - 1, i32::MAX).center(), i32::MAX - 1);
    assert_eq!(sp(0, i32::MIN, i32::MIN + 1).center(), i32::MIN + 1);
    assert_eq!(sp(0, i32::MIN, i32::MAX).center(), 0);
}

#[test]
fn overlap_needs_a_shared_column_on_one_level() {
    assert!(sp(1, 0, 5).overlaps_with(&sp(1, 4, 9)));
    assert!(sp(1, 4, 9).overlaps_with(&sp(1, 0, 5)));
    assert!(sp(1, 0, 9).overlaps_with(&sp(1, 3, 4)));
    assert!(sp(1, 3, 7).overlaps_with(&sp(1, 3, 7)));
    assert!(!sp(1, 0, 5).overlaps_with(&sp(2, 4, 9)));
    assert!(!sp(1, 0, 5).overlaps_with(&sp(1, 6, 9)));
}

#[test]
fn shelves_that_touch_do_not_overlap() {
    assert!(!sp(1, 0, 5).overlaps_with(&sp(1, 5, 9)));
    assert!(!sp(1, 5, 9).overlaps_with(&sp(1, 0, 5)));
}

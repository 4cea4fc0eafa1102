use p3get::progress::advance;

#[test]
fn advance_adds_what_was_written() {
    assert_eq!(advance(0, 50, 1000), 50);
    assert_eq!(advance(100, 50, 1000), 150);
}

#[test]
fn advance_reaches_total_exactly() {
    assert_eq!(advance(950, 50, 1000), 1000);
}

#[test]
fn advance_is_held_at_total() {
    assert_eq!(advance(990, 50, 1000), 1000);
    assert_eq!(advance(1000, 1, 1000), 1000);
}

#[test]
fn advance_of_nothing_changes_nothing() {
    assert_eq!(advance(123, 0, 1000), 123);
}

#[test]
fn advance_with_zero_total_stays_zero() {
    assert_eq!(advance(0, 4096, 0), 0);
}

#[test]
fn advance_does_not_wrap_at_the_upper_end() {
    assert_eq!(advance(u64::MAX - 1, usize::MAX, u64::MAX), u64::MAX);
    assert_eq!(advance(u64::MAX - 10, 3, u64::MAX), u64::MAX - 7);
}

#[test]
fn advance_from_beyond_total_returns_total() {
    assert_eq!(advance(5, 1, 3), 3);
}

use blink_core::output::OutputLine;
use blink_core::polarity::resolve;
use blink_core::round_robin::RoundRobinCursor;

#[test]
fn resolve_truth_table() {
    assert_eq!(resolve(true, true), false);
    assert_eq!(resolve(true, false), true);
    assert_eq!(resolve(false, true), true);
    assert_eq!(resolve(false, false), false);
}

#[test]
fn round_robin_sequence_of_three() {
    let mut cursor = RoundRobinCursor::new();
    let mut indices: Vec<usize> = Vec::new();
    for _ in 0..7 {
        indices.push(cursor.advance_and_select(3));
    }
    assert_eq!(indices, vec![0, 1, 2, 0, 1, 2, 0]);
}

#[test]
fn round_robin_stays_in_bounds() {
    for count in 1..6usize {
        let mut cursor = RoundRobinCursor::new();
        for _ in 0..20 {
            let index = cursor.advance_and_select(count);
            assert!(index < count);
        }
    }
}

#[test]
fn round_robin_single_member() {
    let mut cursor = RoundRobinCursor::new();
    for _ in 0..5 {
        assert_eq!(cursor.advance_and_select(1), 0);
    }
}

#[test]
fn output_assertions_set_levels() {
    let mut line = OutputLine::new(false);
    line.assert_high();
    assert!(line.high);
    line.assert_low();
    assert!(!line.high);
}

#[test]
fn output_drive_is_idempotent() {
    for &logical in &[true, false] {
        for &active_low in &[true, false] {
            let mut once = OutputLine::new(false);
            once.drive_logical(logical, active_low);
            let mut twice = OutputLine::new(false);
            twice.drive_logical(logical, active_low);
            twice.drive_logical(logical, active_low);
            assert_eq!(once, twice);
        }
    }
}

#[test]
fn output_drive_matches_polarity() {
    let mut line = OutputLine::new(false);
    line.drive_logical(true, true);
    assert!(!line.high);
    line.drive_logical(false, true);
    assert!(line.high);
    line.drive_logical(true, false);
    assert!(line.high);
    line.drive_logical(false, false);
    assert!(!line.high);
}

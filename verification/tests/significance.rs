use significant_clock::significance::is_significant;

#[test]
fn ascending_descending_is_significant() {
    assert!(is_significant(1, 22, 10));
}

#[test]
fn pairs_are_significant() {
    assert!(is_significant(11, 22, 11));
}

#[test]
fn all_equal_is_significant() {
    assert!(is_significant(11, 11, 11));
}

#[test]
fn repeated_pairs_are_significant() {
    assert!(is_significant(23, 23, 23));
}

#[test]
fn invisible_pattern_ignored() {
    assert!(!is_significant(23, 57, 54));
}

#[test]
fn barely_visible_pattern_ignored() {
    assert!(!is_significant(0, 16, 55));
}

#[test]
fn slightly_visible_pattern_ignored() {
    assert!(!is_significant(0, 12, 11));
}

#[test]
fn ascending_run_is_significant() {
    assert!(is_significant(1, 23, 45));
    assert!(is_significant(12, 34, 56));
}

#[test]
fn plain_readings_are_not_significant() {
    assert!(!is_significant(9, 41, 7));
    assert!(!is_significant(0, 0, 1));
}

use cputemp::temperature::{to_whole_degrees, MILLIDEGREES_PER_DEGREE};

#[test]
fn one_degree_is_a_thousand_millidegrees() {
    assert_eq!(MILLIDEGREES_PER_DEGREE, 1000);
}

#[test]
fn positive_reading_drops_the_fraction() {
    assert_eq!(to_whole_degrees(45234), 45);
    assert_eq!(to_whole_degrees(52345), 52);
    assert_eq!(to_whole_degrees(1999), 1);
    assert_eq!(to_whole_degrees(1000), 1);
}

#[test]
fn reading_below_one_degree_is_zero() {
    assert_eq!(to_whole_degrees(999), 0);
    assert_eq!(to_whole_degrees(1), 0);
    assert_eq!(to_whole_degrees(0), 0);
    assert_eq!(to_whole_degrees(-1), 0);
    assert_eq!(to_whole_degrees(-999), 0);
}

#[test]
fn negative_reading_rounds_toward_zero() {
    assert_eq!(to_whole_degrees(-5000), -5);
    assert_eq!(to_whole_degrees(-5001), -5);
    assert_eq!(to_whole_degrees(-5999), -5);
    assert_eq!(to_whole_degrees(-1000), -1);
    assert_eq!(to_whole_degrees(-1001), -1);
}

#[test]
fn extreme_readings_convert() {
    assert_eq!(to_whole_degrees(i32::MAX), 2_147_483);
    assert_eq!(to_whole_degrees(i32::MIN), -2_147_483);
}

#[test]
fn negated_reading_gives_negated_degrees() {
    for raw in [0, 1, 999, 1000, 1001, 45234, 52345, 2_000_000_000] {
        assert_eq!(to_whole_degrees(-raw), -to_whole_degrees(raw));
    }
}

#[test]
fn whole_degrees_stay_within_one_degree_of_the_reading() {
    for raw in [-2_000_000_001, -52345, -1000, -999, -1, 0, 1, 999, 1000, 52345, 2_000_000_001] {
        let degrees = to_whole_degrees(raw) as i64;
        let rest = raw as i64 - degrees * 1000;
        assert!(rest.abs() < 1000);
        assert!(rest == 0 || (rest > 0) == (raw > 0));
    }
}

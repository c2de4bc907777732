use predict_agent::time;

#[test]
fn seconds_between_moments() {
    assert_eq!(time::count_seconds((100, 0), (40, 0)), Some(60));
    assert_eq!(time::count_seconds((100, 0), (40, 1)), Some(59));
    assert_eq!(time::count_seconds((40, 1), (100, 0)), Some(-59));
    assert_eq!(time::count_seconds((40, 0), (100, 0)), Some(-60));
    assert_eq!(time::count_seconds((253402300799, 999999999), (0, 0)), Some(253402300799));
    assert_eq!(time::count_seconds((i64::MAX, 0), (0, 0)), None);
    assert_eq!(time::count_seconds((0, 0), (0, 1_000_000_000)), None);
}

#[test]
fn seconds_to_the_moment_of_a_text() {
    assert_eq!(time::seconds_until("1970-01-01T00:01:00Z", 0, 0), Some(60));
    assert_eq!(time::seconds_until("1970-01-01T01:01:00.5+01:00", 0, 500_000_001), Some(59));
    assert_eq!(time::seconds_until("1970-01-01 00:01:00Z", 61, 0), Some(-1));
    assert_eq!(time::seconds_until("1970-01-01", 0, 0), None);
    assert_eq!(time::seconds_until("soon", 0, 0), None);
}

use udp_server::clock::{timestamp_sec, unix_seconds};

#[test]
fn unix_seconds_after_epoch() {
    assert_eq!(unix_seconds(false, 0, 0), 0);
    assert_eq!(unix_seconds(false, 1_700_000_000, 999_999_999), 1_700_000_000);
    assert_eq!(unix_seconds(false, u64::MAX, 0), i64::MAX);
}

#[test]
fn unix_seconds_before_epoch_rounds_down() {
    assert_eq!(unix_seconds(true, 5, 0), -5);
    assert_eq!(unix_seconds(true, 5, 1), -6);
    assert_eq!(unix_seconds(true, 0, 500), -1);
    assert_eq!(unix_seconds(true, i64::MAX as u64, 1), i64::MIN);
    assert_eq!(unix_seconds(true, u64::MAX, 0), i64::MIN);
}

#[test]
fn timestamp_matches_chrono() {
    let before = chrono::Utc::now().timestamp();
    let t = timestamp_sec();
    let after = chrono::Utc::now().timestamp();
    assert!(before <= t && t <= after);
}

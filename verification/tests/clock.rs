use manguins::clock::{epoch_millis, epoch_nanos, now_epoch_nanos};

#[test]
fn epoch_nanos_signs() {
    assert_eq!(epoch_nanos(false, 2, 5), 2_000_000_005);
    assert_eq!(epoch_nanos(true, 2, 5), -2_000_000_005);
    assert_eq!(epoch_nanos(false, 0, 0), 0);
    assert_eq!(epoch_nanos(false, u64::MAX, 999_999_999), u64::MAX as i128 * 1_000_000_000 + 999_999_999);
}

#[test]
fn epoch_millis_rounds_down() {
    assert_eq!(epoch_millis(1_499_827_319_559_123_456), Some(1_499_827_319_559));
    assert_eq!(epoch_millis(999_999), Some(0));
    assert_eq!(epoch_millis(-1), Some(-1));
    assert_eq!(epoch_millis(-1_000_000), Some(-1));
    assert_eq!(epoch_millis(-1_000_001), Some(-2));
    assert_eq!(epoch_millis(i128::MAX), None);
    assert_eq!(epoch_millis(i128::MIN), None);
}

#[test]
fn clock_reads_after_epoch() {
    assert!(now_epoch_nanos() > 1_600_000_000_000_000_000);
}

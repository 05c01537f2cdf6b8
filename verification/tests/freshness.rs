use warp_runner::freshness::{freshness, FreshnessVerdict, Timestamp, NANOS_PER_SEC};

#[test]
fn timestamp_after_epoch_counts_nanoseconds() {
    assert_eq!(NANOS_PER_SEC, 1_000_000_000);
    assert_eq!(Timestamp::after_epoch(0, 0), Timestamp { nanos: 0 });
    assert_eq!(Timestamp::after_epoch(1, 5), Timestamp { nanos: 1_000_000_005 });
    assert_eq!(
        Timestamp::after_epoch(1_700_000_000, 123_456_789),
        Timestamp { nanos: 1_700_000_000_123_456_789 }
    );
}

#[test]
fn timestamp_before_epoch_is_negative() {
    assert_eq!(Timestamp::before_epoch(0, 0), Timestamp { nanos: 0 });
    assert_eq!(Timestamp::before_epoch(1, 5), Timestamp { nanos: -1_000_000_005 });
    assert_eq!(Timestamp::before_epoch(0, 1), Timestamp { nanos: -1 });
}

#[test]
fn timestamp_takes_the_largest_counts() {
    assert_eq!(
        Timestamp::after_epoch(u64::MAX, u32::MAX),
        Timestamp { nanos: 18_446_744_073_709_551_615_000_000_000 + 4_294_967_295 }
    );
    assert_eq!(
        Timestamp::before_epoch(u64::MAX, u32::MAX),
        Timestamp { nanos: -(18_446_744_073_709_551_615_000_000_000 + 4_294_967_295) }
    );
}

#[test]
fn entry_that_is_not_there_is_absent() {
    assert_eq!(freshness(None, Timestamp::after_epoch(10, 0)), FreshnessVerdict::Absent);
    assert_eq!(freshness(None, Timestamp::before_epoch(10, 0)), FreshnessVerdict::Absent);
}

#[test]
fn entry_older_than_the_executable_is_stale() {
    let exe = Timestamp::after_epoch(100, 0);
    assert_eq!(freshness(Some(Timestamp::after_epoch(99, 0)), exe), FreshnessVerdict::Stale);
    assert_eq!(
        freshness(Some(Timestamp::after_epoch(99, 999_999_999)), exe),
        FreshnessVerdict::Stale
    );
    assert_eq!(freshness(Some(Timestamp::before_epoch(1, 0)), exe), FreshnessVerdict::Stale);
}

#[test]
fn entry_as_old_as_the_executable_is_fresh() {
    let exe = Timestamp::after_epoch(100, 7);
    assert_eq!(freshness(Some(Timestamp::after_epoch(100, 7)), exe), FreshnessVerdict::Fresh);
}

#[test]
fn entry_newer_than_the_executable_is_fresh() {
    let exe = Timestamp::after_epoch(100, 7);
    assert_eq!(freshness(Some(Timestamp::after_epoch(100, 8)), exe), FreshnessVerdict::Fresh);
    assert_eq!(freshness(Some(Timestamp::after_epoch(101, 0)), exe), FreshnessVerdict::Fresh);
}

#[test]
fn times_before_the_epoch_keep_their_order() {
    let earlier = Timestamp::before_epoch(5, 0);
    let later = Timestamp::before_epoch(4, 999_999_999);
    assert_eq!(freshness(Some(earlier), later), FreshnessVerdict::Stale);
    assert_eq!(freshness(Some(later), earlier), FreshnessVerdict::Fresh);
}

use linkerd_middleware::time::{Duration, ProtoDuration};

fn convert(seconds: i64, nanos: i32) -> Option<Duration> {
    ProtoDuration { seconds, nanos }.to_duration()
}

#[test]
fn durations_are_normalized() {
    assert_eq!(convert(1, 5), Some(Duration { secs: 1, nanos: 5 }));
    assert_eq!(
        convert(1, 2_000_000_005),
        Some(Duration { secs: 3, nanos: 5 })
    );
    assert_eq!(
        convert(2, -1),
        Some(Duration {
            secs: 1,
            nanos: 999_999_999
        })
    );
    assert_eq!(convert(3, -2_000_000_000), Some(Duration { secs: 1, nanos: 0 }));
    assert_eq!(convert(0, 0), Some(Duration { secs: 0, nanos: 0 }));
}

#[test]
fn negative_durations_are_refused() {
    assert_eq!(convert(-1, 0), None);
    assert_eq!(convert(-1, -5), None);
    assert_eq!(convert(-2, 1), None);
}

#[test]
fn negative_fractions_wrap() {
    // 2^32 - 1 nanoseconds.
    assert_eq!(
        convert(0, -1),
        Some(Duration {
            secs: 4,
            nanos: 294_967_295
        })
    );
    assert_eq!(convert(-1, 999_999_999), convert(0, -1));
    assert_eq!(convert(1, -1_000_000_001), convert(0, -1));
    assert_eq!(
        convert(0, -999_999_999),
        Some(Duration {
            secs: 3,
            nanos: 294_967_297
        })
    );
    assert_eq!(convert(-1, 1_000_000_000), Some(Duration { secs: 0, nanos: 0 }));
}

#[test]
fn durations_that_overflow_are_refused() {
    assert_eq!(convert(i64::MAX, 1_000_000_000), None);
    assert_eq!(convert(i64::MAX, i32::MAX), None);
    assert_eq!(convert(i64::MIN, -1_000_000_000), None);
    assert_eq!(convert(i64::MIN, 0), None);
    assert_eq!(convert(i64::MIN, 1), None);
    assert_eq!(
        convert(i64::MAX, 999_999_999),
        Some(Duration {
            secs: i64::MAX as u64,
            nanos: 999_999_999
        })
    );
}

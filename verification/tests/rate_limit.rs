use device_hub::rate_limiter::{time_bucket, RateLimit};

#[test]
fn bucket_is_start_of_minute() {
    assert_eq!(time_bucket(0), 0);
    assert_eq!(time_bucket(59), 0);
    assert_eq!(time_bucket(60), 60);
    assert_eq!(time_bucket(125), 120);
}

#[test]
fn counter_resets_on_newer_minute() {
    let mut limit = RateLimit::starting_at(120);
    limit.record_at(120);
    limit.record_at(120);
    assert_eq!(limit.requests, 2);
    limit.record_at(60);
    assert_eq!(limit.requests, 3);
    assert_eq!(limit.current_window, 120);
    limit.record_at(180);
    assert_eq!(limit.requests, 1);
    assert_eq!(limit.current_window, 180);
}

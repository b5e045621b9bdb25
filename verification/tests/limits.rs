use actix_rate_limiter::error::ConfigError;
use actix_rate_limiter::limit::{Limit, LimitBuilder};
use actix_rate_limiter::time::Timestamp;

#[test]
fn default_limit_is_five_per_second() {
    let limit = Limit::default();
    assert_eq!(limit.ttl(), 1);
    assert_eq!(limit.amount(), 5);
}

#[test]
fn builder_starts_from_the_default() {
    let built = LimitBuilder::new().build().unwrap();
    assert_eq!(built, Limit::default());
    let by_default = LimitBuilder::default().build().unwrap();
    assert_eq!(by_default, Limit::default());
}

#[test]
fn builder_sets_both_numbers() {
    let limit = LimitBuilder::new().set_ttl(5).set_amount(1).build().unwrap();
    assert_eq!(limit.ttl(), 5);
    assert_eq!(limit.amount(), 1);
    assert_eq!(limit, Limit::new(5, 1).unwrap());
}

#[test]
fn later_setting_replaces_earlier_one() {
    let limit = LimitBuilder::new().set_ttl(5).set_ttl(7).set_amount(2).set_amount(9).build().unwrap();
    assert_eq!(limit.ttl(), 7);
    assert_eq!(limit.amount(), 9);
}

#[test]
fn zero_quota_is_a_limit() {
    let limit = Limit::new(60, 0).unwrap();
    assert_eq!(limit.amount(), 0);
    assert_eq!(limit.ttl(), 60);
}

#[test]
fn window_must_be_positive() {
    assert_eq!(Limit::new(0, 5), Err(ConfigError::InvalidLimit));
    assert_eq!(Limit::new(-1, 5), Err(ConfigError::InvalidLimit));
    assert_eq!(Limit::new(i64::MIN, 5), Err(ConfigError::InvalidLimit));
    assert_eq!(LimitBuilder::new().set_ttl(0).build(), Err(ConfigError::InvalidLimit));
}

#[test]
fn quota_must_not_be_negative() {
    assert_eq!(Limit::new(1, -1), Err(ConfigError::InvalidLimit));
    assert_eq!(Limit::new(1, i64::MIN), Err(ConfigError::InvalidLimit));
    assert_eq!(LimitBuilder::new().set_amount(-3).build(), Err(ConfigError::InvalidLimit));
}

#[test]
fn largest_numbers_are_accepted() {
    let limit = Limit::new(i64::MAX, i64::MAX).unwrap();
    assert_eq!(limit.ttl(), i64::MAX);
    assert_eq!(limit.amount(), i64::MAX);
}

#[test]
fn whole_seconds_between_two_instants() {
    let start = Timestamp::new(100, 500_000_000);
    assert_eq!(Timestamp::new(100, 500_000_000).seconds_since(&start), 0);
    assert_eq!(Timestamp::new(101, 499_999_999).seconds_since(&start), 0);
    assert_eq!(Timestamp::new(101, 500_000_000).seconds_since(&start), 1);
    assert_eq!(Timestamp::new(105, 0).seconds_since(&start), 4);
    assert_eq!(Timestamp::new(105, 500_000_000).seconds_since(&start), 5);
}

#[test]
fn part_of_a_second_does_not_count_backwards_either() {
    let start = Timestamp::new(100, 500_000_000);
    assert_eq!(Timestamp::new(100, 0).seconds_since(&start), 0);
    assert_eq!(Timestamp::new(99, 500_000_001).seconds_since(&start), 0);
    assert_eq!(Timestamp::new(99, 500_000_000).seconds_since(&start), -1);
    assert_eq!(Timestamp::new(98, 0).seconds_since(&start), -2);
}

#[test]
fn seconds_between_the_far_ends_of_time() {
    let first = Timestamp::new(i64::MIN, 0);
    let last = Timestamp::new(i64::MAX, 999_999_999);
    assert_eq!(last.seconds_since(&first), (i64::MAX as i128) - (i64::MIN as i128));
    assert_eq!(first.seconds_since(&last), (i64::MIN as i128) - (i64::MAX as i128));
}

#[test]
fn clock_is_read_and_moves_on() {
    let first = Timestamp::now();
    assert!(first.secs > 1_600_000_000);
    assert!(first.nanos < 1_000_000_000);
    let mut later = Timestamp::now();
    while later == first {
        later = Timestamp::now();
    }
    assert!(later.seconds_since(&first) >= 0);
    assert!(later.seconds_since(&first) < 3_600);
}

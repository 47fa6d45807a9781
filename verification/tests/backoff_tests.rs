use iot_sdk::communication::util::{
    backoff_delay, backoff_with_jitter, capped_backoff_ms, retry_with_backoff, RetrySchedule,
    RetryStep,
};

#[test]
fn the_capped_delay_doubles_with_each_attempt() {
    assert_eq!(capped_backoff_ms(0, 100, 10_000), 100);
    assert_eq!(capped_backoff_ms(1, 100, 10_000), 200);
    assert_eq!(capped_backoff_ms(2, 100, 10_000), 400);
    assert_eq!(capped_backoff_ms(3, 100, 10_000), 800);
    assert_eq!(capped_backoff_ms(6, 100, 10_000), 6_400);
}

#[test]
fn the_capped_delay_stops_at_the_maximum() {
    assert_eq!(capped_backoff_ms(7, 100, 10_000), 10_000);
    assert_eq!(capped_backoff_ms(20, 100, 10_000), 10_000);
    assert_eq!(capped_backoff_ms(0, 100, 50), 50);
    assert_eq!(capped_backoff_ms(5, 0, 50), 0);
    assert_eq!(capped_backoff_ms(5, 7, 0), 0);
}

#[test]
fn the_exponent_is_held_at_31() {
    assert_eq!(capped_backoff_ms(30, 1, u64::MAX), 1 << 30);
    assert_eq!(capped_backoff_ms(31, 1, u64::MAX), 1 << 31);
    assert_eq!(capped_backoff_ms(32, 1, u64::MAX), 1 << 31);
    assert_eq!(capped_backoff_ms(64, 1, u64::MAX), 1 << 31);
    assert_eq!(capped_backoff_ms(usize::MAX, 1, u64::MAX), 1 << 31);
    assert_eq!(capped_backoff_ms(usize::MAX, 3, u64::MAX), 3 << 31);
}

#[test]
fn a_product_beyond_64_bits_is_held_at_the_maximum() {
    assert_eq!(capped_backoff_ms(5, u64::MAX, u64::MAX), u64::MAX);
    assert_eq!(capped_backoff_ms(31, 1 << 40, 1_000_000), 1_000_000);
    assert_eq!(capped_backoff_ms(33, u64::MAX / 2, 77), 77);
}

#[test]
fn the_capped_delay_never_shrinks() {
    for (base, max) in [(1u64, 1000u64), (100, 10_000), (3, u64::MAX), (u64::MAX, u64::MAX), (0, 5)] {
        for attempt in 0..70usize {
            let here = capped_backoff_ms(attempt, base, max);
            let next = capped_backoff_ms(attempt + 1, base, max);
            assert!(next >= here);
            assert!(here <= max);
            assert!(2 * (next as u128) + (next as u128) / 5 >= 2 * (here as u128) + (here as u128) / 5);
        }
    }
}

#[test]
fn the_delay_is_the_capped_delay_and_the_jitter() {
    assert_eq!(backoff_delay(3, 100, 10_000, 0), 800);
    assert_eq!(backoff_delay(3, 100, 10_000, 37), 837);
    assert_eq!(backoff_delay(3, 100, 10_000, 160), 960);
    assert_eq!(backoff_delay(9, 100, 10_000, 2_000), 12_000);
    assert_eq!(backoff_delay(0, u64::MAX, u64::MAX, u64::MAX / 5), u64::MAX);
}

#[test]
fn the_jitter_is_at_most_a_fifth() {
    for attempt in [0usize, 1, 2, 5, 10, 30, 31, 32, 1000, usize::MAX] {
        for _ in 0..200 {
            let capped = capped_backoff_ms(attempt, 100, 10_000);
            let delay = backoff_with_jitter(attempt, 100, 10_000);
            assert!(delay >= capped);
            assert!(delay <= capped + capped / 5);
            assert!(delay <= 12_000);
        }
    }
}

#[test]
fn the_jitter_varies() {
    let mut seen = std::collections::BTreeSet::new();
    for _ in 0..200 {
        seen.insert(backoff_with_jitter(20, 1_000, 1_000_000));
    }
    assert!(seen.len() > 1);
}

#[test]
fn the_delay_does_not_overflow() {
    for _ in 0..100 {
        let delay = backoff_with_jitter(usize::MAX, u64::MAX, u64::MAX);
        assert_eq!(delay, u64::MAX);
        let small = backoff_with_jitter(40, 1, 4);
        assert_eq!(small, 4);
    }
}

#[test]
fn a_schedule_gives_up_after_its_attempts() {
    let mut schedule = retry_with_backoff(3, 500);
    assert_eq!(schedule, RetrySchedule { max_attempts: 3, failures: 0, delay_ms: 500 });
    assert!(schedule.may_attempt());
    assert_eq!(schedule.failed(), RetryStep::RetryAfter(500));
    assert_eq!(schedule.failed(), RetryStep::RetryAfter(1000));
    assert!(schedule.may_attempt());
    assert_eq!(schedule.failed(), RetryStep::GiveUp);
    assert!(!schedule.may_attempt());
    assert_eq!(schedule.failures, 3);
    assert_eq!(schedule.failed(), RetryStep::GiveUp);
}

#[test]
fn a_schedule_without_retries_gives_up_after_the_first_failure() {
    let mut schedule = retry_with_backoff(0, 500);
    assert_eq!(schedule.failed(), RetryStep::GiveUp);
    let mut single = RetrySchedule::new(1, 500);
    assert_eq!(single.failed(), RetryStep::GiveUp);
}

#[test]
fn the_wait_is_held_at_the_top_of_the_range() {
    let mut schedule = retry_with_backoff(10, u64::MAX / 2 + 1);
    assert_eq!(schedule.failed(), RetryStep::RetryAfter(u64::MAX / 2 + 1));
    assert_eq!(schedule.failed(), RetryStep::RetryAfter(u64::MAX));
    assert_eq!(schedule.failed(), RetryStep::RetryAfter(u64::MAX));
}

#[test]
fn the_wait_doubles_sixty_times_and_more() {
    let mut schedule = retry_with_backoff(100, 1);
    for k in 0..64u32 {
        assert_eq!(schedule.failed(), RetryStep::RetryAfter(1u64 << k));
    }
    assert_eq!(schedule.failed(), RetryStep::RetryAfter(u64::MAX));
}

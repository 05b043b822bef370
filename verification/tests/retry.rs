use dhcp::retry::{
    deadline_from, init_delay, retransmit_timeout, retransmit_wait, INIT_DELAY_BOUND_MS,
    INIT_DELAY_MIN_MS, JITTER_MS, MAX_ATTEMPTS, RETRANSMIT_BASE_MS, RETRANSMIT_CAP_MS,
};

#[test]
fn timeouts_double_from_four_seconds_up_to_sixty_four() {
    let got: Vec<u64> = (0..8).map(retransmit_timeout).collect();
    assert_eq!(got, vec![4_000, 8_000, 16_000, 32_000, 64_000, 64_000, 64_000, 64_000]);
    assert_eq!(retransmit_timeout(u32::MAX), 64_000);
    assert_eq!(RETRANSMIT_BASE_MS, 4_000);
    assert_eq!(RETRANSMIT_CAP_MS, 64_000);
}

#[test]
fn timeouts_never_go_down_and_never_pass_the_cap() {
    let mut last = 0;
    for attempt in 0..100 {
        let t = retransmit_timeout(attempt);
        assert!(t >= last);
        assert!(t <= RETRANSMIT_CAP_MS);
        last = t;
    }
}

#[test]
fn every_allowed_attempt_has_its_timeout() {
    assert_eq!(MAX_ATTEMPTS, 6);
    let got: Vec<u64> = (0..MAX_ATTEMPTS).map(retransmit_timeout).collect();
    assert_eq!(got, vec![4_000, 8_000, 16_000, 32_000, 64_000, 64_000]);
}

#[test]
fn jitter_moves_the_timeout_by_at_most_one_second() {
    assert_eq!(JITTER_MS, 1_000);
    assert_eq!(retransmit_wait(0, 0), 3_000);
    assert_eq!(retransmit_wait(0, 1_000), 4_000);
    assert_eq!(retransmit_wait(0, 2_000), 5_000);
    assert_eq!(retransmit_wait(0, 2_001), 5_000);
    assert_eq!(retransmit_wait(0, u64::MAX), 5_000);
    assert_eq!(retransmit_wait(2, 500), 15_500);
    assert_eq!(retransmit_wait(9, 1_999), 64_999);
}

#[test]
fn init_delay_stays_between_one_and_ten_seconds() {
    assert_eq!(INIT_DELAY_MIN_MS, 1_000);
    assert_eq!(INIT_DELAY_BOUND_MS, 10_000);
    assert_eq!(init_delay(0), 1_000);
    assert_eq!(init_delay(999), 1_000);
    assert_eq!(init_delay(1_000), 1_000);
    assert_eq!(init_delay(5_432), 5_432);
    assert_eq!(init_delay(9_999), 9_999);
    assert_eq!(init_delay(10_000), 9_999);
    assert_eq!(init_delay(u64::MAX), 9_999);
}

#[test]
fn deadlines_stop_at_the_end_of_time() {
    assert_eq!(deadline_from(1_000, 4_000), 5_000);
    assert_eq!(deadline_from(u64::MAX - 5, 5), u64::MAX);
    assert_eq!(deadline_from(u64::MAX - 5, 6), u64::MAX);
    assert_eq!(deadline_from(u64::MAX, u64::MAX), u64::MAX);
}

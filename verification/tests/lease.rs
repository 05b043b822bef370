use dhcp::{compute_timers, DeadlineKind, Lease, LeaseTimers};

fn lease_of(duration_secs: u32, obtained_ms: u64) -> Lease {
    Lease::new([10, 0, 0, 5], [10, 0, 0, 1], compute_timers(duration_secs, None, None), obtained_ms)
}

#[test]
fn default_timers_are_half_and_seven_eighths() {
    assert_eq!(
        compute_timers(600, None, None),
        LeaseTimers { t1_ms: 300_000, t2_ms: 525_000, expiry_ms: 600_000 }
    );
    assert_eq!(
        compute_timers(86_400, None, None),
        LeaseTimers { t1_ms: 43_200_000, t2_ms: 75_600_000, expiry_ms: 86_400_000 }
    );
}

#[test]
fn timers_are_ordered_for_short_and_long_leases() {
    for secs in [1u32, 2, 3, 4, 7, 8, 9, 15, 16, 599, 600, 601, 1 << 20, u32::MAX - 1, u32::MAX] {
        let t = compute_timers(secs, None, None);
        assert!(0 < t.t1_ms && t.t1_ms < t.t2_ms && t.t2_ms < t.expiry_ms, "lease {}", secs);
        assert_eq!(t.expiry_ms, secs as u64 * 1000);
    }
    assert_eq!(compute_timers(1, None, None), LeaseTimers { t1_ms: 500, t2_ms: 875, expiry_ms: 1000 });
}

#[test]
fn server_timers_are_taken_when_in_order() {
    assert_eq!(
        compute_timers(600, Some(100), Some(200)),
        LeaseTimers { t1_ms: 100_000, t2_ms: 200_000, expiry_ms: 600_000 }
    );
    assert_eq!(
        compute_timers(600, Some(100), None),
        LeaseTimers { t1_ms: 100_000, t2_ms: 525_000, expiry_ms: 600_000 }
    );
    assert_eq!(
        compute_timers(600, None, Some(400)),
        LeaseTimers { t1_ms: 300_000, t2_ms: 400_000, expiry_ms: 600_000 }
    );
}

#[test]
fn server_timers_out_of_order_fall_back_to_defaults() {
    let defaults = LeaseTimers { t1_ms: 300_000, t2_ms: 525_000, expiry_ms: 600_000 };
    assert_eq!(compute_timers(600, Some(0), Some(200)), defaults);
    assert_eq!(compute_timers(600, Some(200), Some(200)), defaults);
    assert_eq!(compute_timers(600, Some(300), Some(100)), defaults);
    assert_eq!(compute_timers(600, Some(100), Some(600)), defaults);
    assert_eq!(compute_timers(600, Some(100), Some(u32::MAX)), defaults);
    assert_eq!(compute_timers(600, Some(550), None), defaults);
    assert_eq!(compute_timers(600, None, Some(300)), defaults);
}

#[test]
fn a_lease_of_zero_seconds_has_no_timers() {
    assert_eq!(compute_timers(0, None, None), LeaseTimers { t1_ms: 0, t2_ms: 0, expiry_ms: 0 });
    assert_eq!(compute_timers(0, Some(1), Some(2)), LeaseTimers { t1_ms: 0, t2_ms: 0, expiry_ms: 0 });
}

#[test]
fn lease_new_copies_the_timers() {
    let lease = lease_of(600, 5_000);
    assert_eq!(
        lease,
        Lease {
            address: [10, 0, 0, 5],
            server: [10, 0, 0, 1],
            duration_ms: 600_000,
            t1_ms: 300_000,
            t2_ms: 525_000,
            obtained_ms: 5_000,
        }
    );
}

#[test]
fn deadline_reached_names_the_latest_deadline() {
    let lease = lease_of(600, 5_000);
    assert_eq!(lease.deadline_reached(0), None);
    assert_eq!(lease.deadline_reached(5_000), None);
    assert_eq!(lease.deadline_reached(304_999), None);
    assert_eq!(lease.deadline_reached(305_000), Some(DeadlineKind::T1));
    assert_eq!(lease.deadline_reached(529_999), Some(DeadlineKind::T1));
    assert_eq!(lease.deadline_reached(530_000), Some(DeadlineKind::T2));
    assert_eq!(lease.deadline_reached(604_999), Some(DeadlineKind::T2));
    assert_eq!(lease.deadline_reached(605_000), Some(DeadlineKind::Expiry));
    assert_eq!(lease.deadline_reached(u64::MAX), Some(DeadlineKind::Expiry));
}

#[test]
fn time_until_next_deadline_counts_down_to_each_deadline_in_turn() {
    let lease = lease_of(600, 5_000);
    assert_eq!(lease.time_until_next_deadline(0), 300_000);
    assert_eq!(lease.time_until_next_deadline(5_000), 300_000);
    assert_eq!(lease.time_until_next_deadline(5_001), 299_999);
    assert_eq!(lease.time_until_next_deadline(304_999), 1);
    assert_eq!(lease.time_until_next_deadline(305_000), 225_000);
    assert_eq!(lease.time_until_next_deadline(529_999), 1);
    assert_eq!(lease.time_until_next_deadline(530_000), 75_000);
    assert_eq!(lease.time_until_next_deadline(604_999), 1);
    assert_eq!(lease.time_until_next_deadline(605_000), 0);
    assert_eq!(lease.time_until_next_deadline(u64::MAX), 0);
}

#[test]
fn time_until_counts_down_to_one_deadline() {
    let lease = lease_of(600, 5_000);
    assert_eq!(lease.time_until(DeadlineKind::T1, 5_000), 300_000);
    assert_eq!(lease.time_until(DeadlineKind::T1, 305_000), 0);
    assert_eq!(lease.time_until(DeadlineKind::T2, 305_000), 225_000);
    assert_eq!(lease.time_until(DeadlineKind::T2, 600_000), 0);
    assert_eq!(lease.time_until(DeadlineKind::Expiry, 600_000), 5_000);
    assert_eq!(lease.time_until(DeadlineKind::Expiry, 700_000), 0);
}

#[test]
fn a_lease_obtained_near_the_end_of_time_does_not_overflow() {
    let lease = lease_of(u32::MAX, u64::MAX - 10);
    assert_eq!(lease.deadline_reached(u64::MAX), None);
    assert_eq!(lease.time_until_next_deadline(u64::MAX), lease.t1_ms - 10);
}

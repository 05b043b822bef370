use dhcp::entropy::next_xid;
use dhcp::Entropy;

#[test]
fn drawn_numbers_lie_in_their_ranges_and_vary() {
    let mut delays = Vec::new();
    let mut jitters = Vec::new();
    let mut xids = Vec::new();
    for _ in 0..200 {
        let e = Entropy::draw();
        assert!(e.delay_ms >= 1_000 && e.delay_ms < 10_000, "delay {}", e.delay_ms);
        assert!(e.jitter_ms <= 2_000, "jitter {}", e.jitter_ms);
        delays.push(e.delay_ms);
        jitters.push(e.jitter_ms);
        xids.push(e.xid);
    }
    delays.sort();
    delays.dedup();
    jitters.sort();
    jitters.dedup();
    xids.sort();
    xids.dedup();
    assert!(delays.len() > 1);
    assert!(jitters.len() > 1);
    assert!(xids.len() > 1);
}

#[test]
fn next_xid_is_never_the_one_in_use() {
    assert_eq!(next_xid(5, 9), 9);
    assert_eq!(next_xid(5, 5), 6);
    assert_eq!(next_xid(u32::MAX, u32::MAX), 0);
    assert_eq!(next_xid(0, u32::MAX), u32::MAX);
    for x in [0u32, 1, 77, u32::MAX - 1, u32::MAX] {
        for c in [0u32, 1, 77, u32::MAX - 1, u32::MAX] {
            assert_ne!(next_xid(x, c), x);
        }
    }
}

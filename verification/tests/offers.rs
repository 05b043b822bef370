use dhcp::{offer_of, select_best, BootOps, Dhcp, DhcpOptionTlv, Offer};

fn offer(lease_secs: u32, last: u8) -> Offer {
    Offer { address: [10, 0, 0, last], server: [10, 0, 0, 1], lease_secs, t1_secs: None, t2_secs: None }
}

fn reply(options: Vec<DhcpOptionTlv>) -> Dhcp {
    Dhcp {
        op: BootOps::BOOTPREPLY,
        htype: 1,
        hlen: 6,
        hops: 0,
        xid: 1,
        secs: 0,
        flags: 0,
        ciaddr: [0; 4],
        yiaddr: [10, 0, 0, 5],
        siaddr: [10, 0, 0, 9],
        giaddr: [0; 4],
        chaddr: vec![1, 2, 3, 4, 5, 6],
        sname: [0; 64],
        file: [0; 128],
        options,
    }
}

#[test]
fn longest_lease_wins_and_the_earliest_breaks_ties() {
    let offers = vec![offer(300, 1), offer(600, 2), offer(600, 3)];
    assert_eq!(select_best(&offers), Some(1));
}

#[test]
fn select_best_of_nothing_is_nothing() {
    assert_eq!(select_best(&vec![]), None);
}

#[test]
fn select_best_examples() {
    assert_eq!(select_best(&vec![offer(1, 1)]), Some(0));
    assert_eq!(select_best(&vec![offer(5, 1), offer(5, 2), offer(5, 3)]), Some(0));
    assert_eq!(select_best(&vec![offer(1, 1), offer(2, 2), offer(3, 3)]), Some(2));
    assert_eq!(select_best(&vec![offer(3, 1), offer(2, 2), offer(1, 3)]), Some(0));
    assert_eq!(select_best(&vec![offer(2, 1), offer(9, 2), offer(3, 3), offer(9, 4), offer(8, 5)]), Some(1));
    assert_eq!(select_best(&vec![offer(0, 1), offer(u32::MAX, 2)]), Some(1));
}

#[test]
fn select_best_is_a_function_of_the_list() {
    let offers = vec![offer(300, 1), offer(600, 2), offer(600, 3), offer(100, 4)];
    let first = select_best(&offers);
    for _ in 0..10 {
        assert_eq!(select_best(&offers.clone()), first);
    }
}

#[test]
fn offer_of_reads_address_server_and_times() {
    let m = reply(vec![
        DhcpOptionTlv::message_type(dhcp::DhcpMessage::Offer),
        DhcpOptionTlv::address(54, [10, 0, 0, 1]),
        DhcpOptionTlv::number(51, 600),
        DhcpOptionTlv::number(58, 200),
        DhcpOptionTlv::number(59, 400),
    ]);
    assert_eq!(
        offer_of(&m),
        Some(Offer {
            address: [10, 0, 0, 5],
            server: [10, 0, 0, 1],
            lease_secs: 600,
            t1_secs: Some(200),
            t2_secs: Some(400),
        })
    );
}

#[test]
fn offer_of_needs_a_server_and_a_lease_time() {
    let server = DhcpOptionTlv::address(54, [10, 0, 0, 1]);
    let lease = DhcpOptionTlv::number(51, 600);
    assert_eq!(offer_of(&reply(vec![])), None);
    assert_eq!(offer_of(&reply(vec![server.clone()])), None);
    assert_eq!(offer_of(&reply(vec![lease.clone()])), None);
    assert_eq!(offer_of(&reply(vec![server.clone(), DhcpOptionTlv::number(51, 0)])), None);
    assert_eq!(
        offer_of(&reply(vec![server.clone(), DhcpOptionTlv::new(51, vec![0, 2, 88]).unwrap()])),
        None
    );
    assert_eq!(
        offer_of(&reply(vec![DhcpOptionTlv::new(54, vec![10, 0, 0]).unwrap(), lease.clone()])),
        None
    );
    assert_eq!(
        offer_of(&reply(vec![lease, server])),
        Some(Offer {
            address: [10, 0, 0, 5],
            server: [10, 0, 0, 1],
            lease_secs: 600,
            t1_secs: None,
            t2_secs: None,
        })
    );
}

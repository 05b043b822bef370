use dhcp::options::{
    find_option, OPTION_LEASE_TIME, OPTION_MESSAGE_TYPE, OPTION_REBINDING_TIME,
    OPTION_RENEWAL_TIME, OPTION_REQUESTED_ADDRESS, OPTION_ROUTER, OPTION_SERVER_ID,
    OPTION_SUBNET_MASK,
};
use dhcp::request::build_message;
use dhcp::{decode, encode, BootOps, Dhcp, DhcpMessage, DhcpOptionTlv};

fn with_options(options: Vec<DhcpOptionTlv>) -> Dhcp {
    Dhcp {
        op: BootOps::BOOTPREPLY,
        htype: 1,
        hlen: 0,
        hops: 0,
        xid: 1,
        secs: 0,
        flags: 0,
        ciaddr: [0; 4],
        yiaddr: [0; 4],
        siaddr: [0; 4],
        giaddr: [0; 4],
        chaddr: vec![],
        sname: [0; 64],
        file: [0; 128],
        options,
    }
}

#[test]
fn option_codes_are_those_of_the_protocol() {
    assert_eq!(
        [
            OPTION_SUBNET_MASK,
            OPTION_ROUTER,
            OPTION_REQUESTED_ADDRESS,
            OPTION_LEASE_TIME,
            OPTION_MESSAGE_TYPE,
            OPTION_SERVER_ID,
            OPTION_RENEWAL_TIME,
            OPTION_REBINDING_TIME
        ],
        [1, 3, 50, 51, 53, 54, 58, 59]
    );
    assert_eq!(dhcp::MAGIC_COOKIE, 0x6382_5363);
    assert_eq!(dhcp::DHCP_OPTION_PADD, 0);
    assert_eq!(dhcp::DHCP_OPTIONS_END, 255);
}

#[test]
fn codes_of_operations_and_kinds() {
    assert_eq!(BootOps::BOOTPREQUEST.code(), 1);
    assert_eq!(BootOps::BOOTPREPLY.code(), 2);
    assert_eq!(BootOps::from_code(1), Some(BootOps::BOOTPREQUEST));
    assert_eq!(BootOps::from_code(2), Some(BootOps::BOOTPREPLY));
    assert_eq!(BootOps::from_code(0), None);
    assert_eq!(BootOps::from_code(3), None);
    let kinds = [
        DhcpMessage::Discover,
        DhcpMessage::Offer,
        DhcpMessage::Request,
        DhcpMessage::Decline,
        DhcpMessage::Ack,
        DhcpMessage::Nack,
        DhcpMessage::Release,
        DhcpMessage::Inform,
    ];
    for (i, kind) in kinds.iter().enumerate() {
        assert_eq!(kind.code(), i as u8 + 1);
        assert_eq!(DhcpMessage::from_code(i as u8 + 1), Some(*kind));
    }
    assert_eq!(DhcpMessage::from_code(0), None);
    assert_eq!(DhcpMessage::from_code(9), None);
    assert_eq!(DhcpMessage::from_code(255), None);
}

#[test]
fn find_option_gives_the_first_with_the_code() {
    let options = vec![
        DhcpOptionTlv::pad(),
        DhcpOptionTlv::new(12, vec![1]).unwrap(),
        DhcpOptionTlv::new(53, vec![5]).unwrap(),
        DhcpOptionTlv::new(12, vec![2]).unwrap(),
    ];
    assert_eq!(find_option(&options, 12), Some(1));
    assert_eq!(find_option(&options, 53), Some(2));
    assert_eq!(find_option(&options, 0), Some(0));
    assert_eq!(find_option(&options, 54), None);
    assert_eq!(find_option(&vec![], 53), None);
}

#[test]
fn message_type_reads_option_53() {
    assert_eq!(with_options(vec![]).message_type(), None);
    assert_eq!(
        with_options(vec![DhcpOptionTlv::new(53, vec![5]).unwrap()]).message_type(),
        Some(DhcpMessage::Ack)
    );
    assert_eq!(
        with_options(vec![
            DhcpOptionTlv::new(53, vec![6]).unwrap(),
            DhcpOptionTlv::new(53, vec![5]).unwrap()
        ])
        .message_type(),
        Some(DhcpMessage::Nack)
    );
    assert_eq!(with_options(vec![DhcpOptionTlv::new(53, vec![9]).unwrap()]).message_type(), None);
    assert_eq!(with_options(vec![DhcpOptionTlv::new(53, vec![]).unwrap()]).message_type(), None);
    assert_eq!(with_options(vec![DhcpOptionTlv::new(53, vec![5, 5]).unwrap()]).message_type(), None);
}

#[test]
fn numbers_are_read_in_network_byte_order() {
    let m = with_options(vec![
        DhcpOptionTlv::new(51, vec![0, 0, 2, 88]).unwrap(),
        DhcpOptionTlv::new(58, vec![0x01, 0x02, 0x03, 0x04]).unwrap(),
        DhcpOptionTlv::new(59, vec![0xff, 0xff, 0xff, 0xff]).unwrap(),
    ]);
    assert_eq!(m.lease_time(), Some(600));
    assert_eq!(m.renewal_time(), Some(0x0102_0304));
    assert_eq!(m.rebinding_time(), Some(u32::MAX));
    assert_eq!(m.u32_option(60), None);
    let short = with_options(vec![DhcpOptionTlv::new(51, vec![0, 2, 88]).unwrap()]);
    assert_eq!(short.lease_time(), None);
}

#[test]
fn addresses_are_read_from_whole_lists() {
    let m = with_options(vec![
        DhcpOptionTlv::new(1, vec![255, 255, 255, 0]).unwrap(),
        DhcpOptionTlv::new(3, vec![10, 0, 0, 1, 10, 0, 0, 2]).unwrap(),
        DhcpOptionTlv::new(54, vec![10, 0, 0, 9]).unwrap(),
    ]);
    assert_eq!(m.subnet_mask(), Some([255, 255, 255, 0]));
    assert_eq!(m.router(), Some([10, 0, 0, 1]));
    assert_eq!(m.server_identifier(), Some([10, 0, 0, 9]));
    assert_eq!(m.address_option(50), None);
    let odd = with_options(vec![
        DhcpOptionTlv::new(3, vec![10, 0, 0, 1, 10]).unwrap(),
        DhcpOptionTlv::new(54, vec![]).unwrap(),
    ]);
    assert_eq!(odd.router(), None);
    assert_eq!(odd.server_identifier(), None);
}

#[test]
fn option_builders_write_what_the_readers_read() {
    assert_eq!(
        DhcpOptionTlv::message_type(DhcpMessage::Request),
        DhcpOptionTlv { op_type: 53, length: 1, value: vec![3] }
    );
    assert_eq!(
        DhcpOptionTlv::address(50, [10, 0, 0, 5]),
        DhcpOptionTlv { op_type: 50, length: 4, value: vec![10, 0, 0, 5] }
    );
    assert_eq!(
        DhcpOptionTlv::number(51, 600),
        DhcpOptionTlv { op_type: 51, length: 4, value: vec![0, 0, 2, 88] }
    );
    assert_eq!(
        DhcpOptionTlv::number(51, 0xdead_beef),
        DhcpOptionTlv { op_type: 51, length: 4, value: vec![0xde, 0xad, 0xbe, 0xef] }
    );
    assert_eq!(DhcpOptionTlv::pad(), DhcpOptionTlv { op_type: 0, length: 0, value: vec![] });
}

#[test]
fn unknown_options_survive_a_round_trip() {
    let m = with_options(vec![
        DhcpOptionTlv::new(200, vec![1, 2, 3]).unwrap(),
        DhcpOptionTlv::new(254, vec![]).unwrap(),
    ]);
    assert_eq!(decode(&encode(&m).unwrap()), Ok(m));
}

#[test]
fn build_message_fills_a_client_message() {
    let mac = vec![0xde, 0xad, 0xbe, 0xef, 0, 1];
    let m = build_message(
        DhcpMessage::Request,
        77,
        &mac,
        0x8000,
        [0; 4],
        Some([10, 0, 0, 5]),
        Some([10, 0, 0, 1]),
    );
    assert_eq!(
        m,
        Dhcp {
            op: BootOps::BOOTPREQUEST,
            htype: 1,
            hlen: 6,
            hops: 0,
            xid: 77,
            secs: 0,
            flags: 0x8000,
            ciaddr: [0; 4],
            yiaddr: [0; 4],
            siaddr: [0; 4],
            giaddr: [0; 4],
            chaddr: mac.clone(),
            sname: [0; 64],
            file: [0; 128],
            options: vec![
                DhcpOptionTlv::new(53, vec![3]).unwrap(),
                DhcpOptionTlv::new(50, vec![10, 0, 0, 5]).unwrap(),
                DhcpOptionTlv::new(54, vec![10, 0, 0, 1]).unwrap(),
            ],
        }
    );
    assert_eq!(decode(&encode(&m).unwrap()), Ok(m));
    let discover = build_message(DhcpMessage::Discover, 1, &mac, 0x8000, [0; 4], None, None);
    assert_eq!(discover.options, vec![DhcpOptionTlv::new(53, vec![1]).unwrap()]);
    assert_eq!(discover.message_type(), Some(DhcpMessage::Discover));
}

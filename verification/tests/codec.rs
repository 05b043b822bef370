use dhcp::{decode, encode, BootOps, DecodeError, Dhcp, DhcpOptionTlv, EncodeError};

fn sample() -> Dhcp {
    Dhcp {
        op: BootOps::BOOTPREQUEST,
        htype: 1,
        hlen: 6,
        hops: 0,
        xid: 0x1234_5678,
        secs: 0x0102,
        flags: 0x8000,
        ciaddr: [1, 2, 3, 4],
        yiaddr: [5, 6, 7, 8],
        siaddr: [9, 10, 11, 12],
        giaddr: [13, 14, 15, 16],
        chaddr: vec![0xde, 0xad, 0xbe, 0xef, 0x00, 0x01],
        sname: [0; 64],
        file: [0; 128],
        options: vec![],
    }
}

#[test]
fn encode_lays_out_the_fixed_header() {
    let mut m = sample();
    m.sname[0] = b'a';
    m.file[127] = 0x7f;
    let bytes = encode(&m).unwrap();
    assert_eq!(bytes.len(), 241);
    assert_eq!(&bytes[0..4], &[1, 1, 6, 0]);
    assert_eq!(&bytes[4..8], &[0x12, 0x34, 0x56, 0x78]);
    assert_eq!(&bytes[8..10], &[0x01, 0x02]);
    assert_eq!(&bytes[10..12], &[0x80, 0x00]);
    assert_eq!(&bytes[12..16], &[1, 2, 3, 4]);
    assert_eq!(&bytes[16..20], &[5, 6, 7, 8]);
    assert_eq!(&bytes[20..24], &[9, 10, 11, 12]);
    assert_eq!(&bytes[24..28], &[13, 14, 15, 16]);
    assert_eq!(&bytes[28..34], &[0xde, 0xad, 0xbe, 0xef, 0x00, 0x01]);
    assert_eq!(&bytes[34..44], &[0u8; 10]);
    assert_eq!(bytes[44], b'a');
    assert_eq!(&bytes[45..108], &[0u8; 63][..]);
    assert_eq!(&bytes[108..235], &[0u8; 127][..]);
    assert_eq!(bytes[235], 0x7f);
    assert_eq!(&bytes[236..240], &[0x63, 0x82, 0x53, 0x63]);
    assert_eq!(bytes[240], 255);
}

#[test]
fn encode_writes_options_in_order_without_padding() {
    let mut m = sample();
    m.options = vec![
        DhcpOptionTlv::new(53, vec![1]).unwrap(),
        DhcpOptionTlv::pad(),
        DhcpOptionTlv::new(61, vec![]).unwrap(),
        DhcpOptionTlv::new(50, vec![10, 0, 0, 5]).unwrap(),
    ];
    let bytes = encode(&m).unwrap();
    assert_eq!(&bytes[240..], &[53, 1, 1, 0, 61, 0, 50, 4, 10, 0, 0, 5, 255]);
}

#[test]
fn decode_of_encode_gives_the_message_back() {
    let mut m = sample();
    m.op = BootOps::BOOTPREPLY;
    m.sname[3] = 9;
    m.file[100] = 200;
    m.options = vec![
        DhcpOptionTlv::new(53, vec![2]).unwrap(),
        DhcpOptionTlv::pad(),
        DhcpOptionTlv::pad(),
        DhcpOptionTlv::new(224, vec![1, 2, 3, 4, 5, 6, 7]).unwrap(),
        DhcpOptionTlv::new(51, vec![0, 0, 2, 88]).unwrap(),
        DhcpOptionTlv::new(12, vec![0xab; 255]).unwrap(),
    ];
    let bytes = encode(&m).unwrap();
    assert_eq!(decode(&bytes), Ok(m));
}

#[test]
fn round_trip_with_longest_and_empty_hardware_address() {
    let mut m = sample();
    m.hlen = 16;
    m.chaddr = (1..=16).collect();
    assert_eq!(decode(&encode(&m).unwrap()), Ok(m.clone()));
    m.hlen = 0;
    m.chaddr = vec![];
    assert_eq!(decode(&encode(&m).unwrap()), Ok(m));
}

#[test]
fn encode_rejects_hardware_address_longer_than_hlen() {
    let mut m = sample();
    m.hlen = 4;
    assert_eq!(encode(&m), Err(EncodeError::BadHardwareAddress));
}

#[test]
fn encode_rejects_hardware_address_shorter_than_hlen() {
    let mut m = sample();
    m.hlen = 7;
    assert_eq!(encode(&m), Err(EncodeError::BadHardwareAddress));
}

#[test]
fn encode_rejects_hardware_address_wider_than_its_field() {
    let mut m = sample();
    m.hlen = 17;
    m.chaddr = vec![0; 17];
    assert_eq!(encode(&m), Err(EncodeError::BadHardwareAddress));
}

#[test]
fn encode_names_the_first_bad_option() {
    let mut m = sample();
    m.options = vec![
        DhcpOptionTlv::new(53, vec![1]).unwrap(),
        DhcpOptionTlv { op_type: 12, length: 3, value: vec![1, 2] },
        DhcpOptionTlv { op_type: 255, length: 0, value: vec![] },
    ];
    assert_eq!(encode(&m), Err(EncodeError::BadOption { index: 1 }));
    m.options.remove(1);
    assert_eq!(encode(&m), Err(EncodeError::BadOption { index: 1 }));
    m.options[1] = DhcpOptionTlv { op_type: 0, length: 1, value: vec![0] };
    assert_eq!(encode(&m), Err(EncodeError::BadOption { index: 1 }));
    m.options.remove(1);
    assert!(encode(&m).is_ok());
}

#[test]
fn option_new_rejects_values_longer_than_a_length_byte() {
    assert!(DhcpOptionTlv::new(12, vec![0; 256]).is_none());
    let o = DhcpOptionTlv::new(12, vec![7; 255]).unwrap();
    assert_eq!(o.op_type, 12);
    assert_eq!(o.length, 255);
    assert_eq!(o.value, vec![7; 255]);
}

#[test]
fn decode_rejects_every_short_buffer() {
    let bytes = encode(&sample()).unwrap();
    for len in 0..240 {
        assert_eq!(decode(&bytes[..len]), Err(DecodeError::Truncated), "length {}", len);
    }
    assert!(decode(&bytes[..240]).is_ok());
}

#[test]
fn decode_rejects_a_bad_magic_cookie() {
    let good = encode(&sample()).unwrap();
    for at in 236..240 {
        let mut bytes = good.clone();
        bytes[at] ^= 1;
        assert_eq!(decode(&bytes), Err(DecodeError::BadMagicCookie));
    }
    let mut zeroed = good.clone();
    zeroed[236..240].copy_from_slice(&[0, 0, 0, 0]);
    assert_eq!(decode(&zeroed), Err(DecodeError::BadMagicCookie));
}

#[test]
fn decode_rejects_an_unknown_op() {
    let mut bytes = encode(&sample()).unwrap();
    bytes[0] = 0;
    assert_eq!(decode(&bytes), Err(DecodeError::BadOp));
    bytes[0] = 3;
    assert_eq!(decode(&bytes), Err(DecodeError::BadOp));
    bytes[0] = 2;
    assert_eq!(decode(&bytes).unwrap().op, BootOps::BOOTPREPLY);
}

#[test]
fn decode_rejects_an_option_longer_than_the_buffer() {
    let mut bytes = encode(&sample()).unwrap();
    bytes.truncate(240);
    bytes.extend_from_slice(&[53, 2, 1]);
    assert_eq!(decode(&bytes), Err(DecodeError::TruncatedOption));
    bytes.truncate(240);
    bytes.extend_from_slice(&[53]);
    assert_eq!(decode(&bytes), Err(DecodeError::TruncatedOption));
    bytes.truncate(240);
    bytes.extend_from_slice(&[53, 1, 1, 12, 200, 1, 2, 3]);
    assert_eq!(decode(&bytes), Err(DecodeError::TruncatedOption));
}

#[test]
fn decode_stops_at_the_end_marker_or_at_the_end_of_the_buffer() {
    let mut bytes = encode(&sample()).unwrap();
    bytes.truncate(240);
    bytes.extend_from_slice(&[53, 1, 5]);
    let m = decode(&bytes).unwrap();
    assert_eq!(m.options, vec![DhcpOptionTlv::new(53, vec![5]).unwrap()]);
    bytes.extend_from_slice(&[255, 12, 200, 1]);
    assert_eq!(decode(&bytes).unwrap(), m);
}

#[test]
fn decode_keeps_pad_bytes_as_markers() {
    let mut bytes = encode(&sample()).unwrap();
    bytes.truncate(240);
    bytes.extend_from_slice(&[0, 53, 1, 5, 0, 0, 255]);
    let m = decode(&bytes).unwrap();
    assert_eq!(
        m.options,
        vec![
            DhcpOptionTlv::pad(),
            DhcpOptionTlv::new(53, vec![5]).unwrap(),
            DhcpOptionTlv::pad(),
            DhcpOptionTlv::pad(),
        ]
    );
    assert_eq!(encode(&m).unwrap(), bytes);
}

#[test]
fn decode_reads_at_most_sixteen_hardware_address_bytes() {
    let mut bytes = encode(&sample()).unwrap();
    bytes[2] = 200;
    for i in 0..16 {
        bytes[28 + i] = i as u8 + 1;
    }
    let m = decode(&bytes).unwrap();
    assert_eq!(m.hlen, 200);
    assert_eq!(m.chaddr, (1..=16).collect::<Vec<u8>>());
    assert_eq!(encode(&m), Err(EncodeError::BadHardwareAddress));
}

#[test]
fn decode_survives_arbitrary_bytes() {
    let mut seed: u32 = 0x2545_f491;
    for round in 0..400 {
        let len = (round * 7) % 600;
        let mut bytes = Vec::with_capacity(len);
        for _ in 0..len {
            seed ^= seed << 13;
            seed ^= seed >> 17;
            seed ^= seed << 5;
            bytes.push((seed >> 24) as u8);
        }
        if round % 2 == 0 && len >= 240 {
            bytes[0] = 1 + (round as u8 / 2) % 2;
            bytes[236..240].copy_from_slice(&[0x63, 0x82, 0x53, 0x63]);
        }
        match decode(&bytes) {
            Ok(m) => {
                assert!(len >= 240);
                assert!(m.chaddr.len() <= 16);
                for o in &m.options {
                    assert_eq!(o.value.len(), o.length as usize);
                    assert_ne!(o.op_type, 255);
                }
            }
            Err(DecodeError::Truncated) => assert!(len < 240),
            Err(_) => assert!(len >= 240),
        }
    }
}

//! The byte layout of a DHCP message, as functions on sequences of bytes.
//!
//! A message is a 236-byte header, the 4-byte magic cookie, the options one
//! after another, and the end marker. Integers travel in network byte order.

use crate::message::{
    BootOps, DhcpView, OptionView, CHADDR_FIELD_LEN, DHCP_OPTIONS_END, DHCP_OPTION_PADD, FIXED_LEN,
    HEADER_LEN, MAGIC_COOKIE,
};
use vstd::prelude::*;

verus! {

/// A 16-bit integer in network byte order.
pub open spec fn be16(x: u16) -> Seq<u8> {
    seq![(x / 256) as u8, (x % 256) as u8]
}

/// A 32-bit integer in network byte order.
pub open spec fn be32(x: u32) -> Seq<u8> {
    seq![
        (x / 0x100_0000) as u8,
        (x / 0x1_0000 % 256) as u8,
        (x / 0x100 % 256) as u8,
        (x % 256) as u8,
    ]
}

/// The 16-bit integer that two bytes in network byte order stand for.
pub open spec fn from_be16(b: Seq<u8>) -> u16
    recommends
        b.len() == 2,
{
    (b[0] * 256 + b[1]) as u16
}

/// The 32-bit integer that four bytes in network byte order stand for.
pub open spec fn from_be32(b: Seq<u8>) -> u32
    recommends
        b.len() == 4,
{
    (b[0] * 0x100_0000 + b[1] * 0x1_0000 + b[2] * 0x100 + b[3]) as u32
}

/// `n` zero bytes.
pub open spec fn zeros(n: nat) -> Seq<u8> {
    Seq::new(n, |i: int| 0u8)
}

/// `s` followed by as many zero bytes as fill a field of `width` bytes.
pub open spec fn padded(s: Seq<u8>, width: nat) -> Seq<u8>
    recommends
        s.len() <= width,
{
    s + zeros((width - s.len()) as nat)
}

/// The bytes of one option: a pad is the single byte 0, any other option is
/// its code, its length byte and its value.
pub open spec fn option_bytes(o: OptionView) -> Seq<u8> {
    if o.op_type == DHCP_OPTION_PADD {
        seq![DHCP_OPTION_PADD]
    } else {
        seq![o.op_type, o.length] + o.value
    }
}

/// The bytes of a list of options, in their order, with nothing between them.
pub open spec fn options_bytes(options: Seq<OptionView>) -> Seq<u8>
    decreases options.len(),
{
    if options.len() == 0 {
        Seq::empty()
    } else {
        option_bytes(options[0]) + options_bytes(options.drop_first())
    }
}

/// The first twelve bytes: op, htype, hlen, hops, xid, secs and flags.
pub open spec fn preamble_bytes(m: DhcpView) -> Seq<u8> {
    seq![m.op.spec_code(), m.htype, m.hlen, m.hops] + be32(m.xid) + be16(m.secs) + be16(m.flags)
}

/// The four addresses ciaddr, yiaddr, siaddr and giaddr.
pub open spec fn addresses_bytes(m: DhcpView) -> Seq<u8> {
    m.ciaddr + m.yiaddr + m.siaddr + m.giaddr
}

/// The 236 bytes of the fixed header.
pub open spec fn header_bytes(m: DhcpView) -> Seq<u8> {
    preamble_bytes(m) + addresses_bytes(m) + padded(m.chaddr, CHADDR_FIELD_LEN as nat) + m.sname
        + m.file
}

/// The whole message on the wire.
pub open spec fn encode_spec(m: DhcpView) -> Seq<u8> {
    header_bytes(m) + be32(MAGIC_COOKIE) + options_bytes(m.options) + seq![DHCP_OPTIONS_END]
}

/// The options that an options area holds, or `None` where an option says
/// it is longer than the bytes that are left. Reading stops at the end
/// marker or where the bytes run out.
pub open spec fn parse_options(b: Seq<u8>) -> Option<Seq<OptionView>>
    decreases b.len(),
{
    if b.len() == 0 || b[0] == DHCP_OPTIONS_END {
        Some(Seq::empty())
    } else if b[0] == DHCP_OPTION_PADD {
        match parse_options(b.skip(1)) {
            Some(rest) => Some(
                seq![OptionView { op_type: DHCP_OPTION_PADD, length: 0, value: Seq::empty() }]
                    + rest,
            ),
            None => None,
        }
    } else if b.len() < 2 || b.len() < 2 + b[1] {
        None
    } else {
        match parse_options(b.skip(2 + b[1])) {
            Some(rest) => Some(
                seq![OptionView { op_type: b[0], length: b[1], value: b.subrange(2, 2 + b[1]) }]
                    + rest,
            ),
            None => None,
        }
    }
}

/// Why a buffer is not a DHCP message.
#[derive(Clone, Copy, Debug, PartialEq, Eq, Structural)]
pub enum DecodeError {
    /// Fewer bytes than the header and the magic cookie take.
    Truncated,
    /// The four bytes after the header are not the magic cookie.
    BadMagicCookie,
    /// The `op` byte is neither a request nor a reply.
    BadOp,
    /// An option says it is longer than the bytes that are left.
    TruncatedOption,
}

/// The number of hardware address bytes that a header with this `hlen` holds.
pub open spec fn chaddr_len(hlen: u8) -> int {
    if hlen <= CHADDR_FIELD_LEN {
        hlen as int
    } else {
        CHADDR_FIELD_LEN as int
    }
}

/// The message that a buffer holds, or why it holds none.
pub open spec fn decode_spec(b: Seq<u8>) -> Result<DhcpView, DecodeError> {
    if b.len() < FIXED_LEN {
        Err(DecodeError::Truncated)
    } else if b.subrange(236, 240) != be32(MAGIC_COOKIE) {
        Err(DecodeError::BadMagicCookie)
    } else {
        match (BootOps::spec_from_code(b[0]), parse_options(b.skip(240))) {
            (None, _) => Err(DecodeError::BadOp),
            (Some(_), None) => Err(DecodeError::TruncatedOption),
            (Some(op), Some(options)) => Ok(
                DhcpView {
                    op,
                    htype: b[1],
                    hlen: b[2],
                    hops: b[3],
                    xid: from_be32(b.subrange(4, 8)),
                    secs: from_be16(b.subrange(8, 10)),
                    flags: from_be16(b.subrange(10, 12)),
                    ciaddr: b.subrange(12, 16),
                    yiaddr: b.subrange(16, 20),
                    siaddr: b.subrange(20, 24),
                    giaddr: b.subrange(24, 28),
                    chaddr: b.subrange(28, 28 + chaddr_len(b[2])),
                    sname: b.subrange(44, 108),
                    file: b.subrange(108, 236),
                    options,
                },
            ),
        }
    }
}

/// Reading two bytes written in network byte order gives the integer back.
pub proof fn lemma_be16_round_trip(x: u16)
    ensures
        be16(x).len() == 2,
        from_be16(be16(x)) == x,
{
}

/// Reading four bytes written in network byte order gives the integer back.
pub proof fn lemma_be32_round_trip(x: u32)
    ensures
        be32(x).len() == 4,
        from_be32(be32(x)) == x,
{
}

/// The bytes of a list with one more option at its end are the bytes of the
/// list followed by the bytes of that option.
pub proof fn lemma_options_bytes_push(options: Seq<OptionView>, o: OptionView)
    ensures
        options_bytes(options.push(o)) == options_bytes(options) + option_bytes(o),
    decreases options.len(),
{
    if options.len() == 0 {
        let one = options.push(o);
        assert(one.drop_first() =~= Seq::<OptionView>::empty());
        assert(options_bytes(one.drop_first()) =~= Seq::<u8>::empty());
        assert(options_bytes(options) =~= Seq::<u8>::empty());
        assert(options_bytes(one) =~= option_bytes(o));
    } else {
        lemma_options_bytes_push(options.drop_first(), o);
        assert(options.push(o).drop_first() =~= options.drop_first().push(o));
        assert(options_bytes(options.push(o)) =~= options_bytes(options) + option_bytes(o));
    }
}

/// The header is always 236 bytes long.
pub proof fn lemma_header_len(m: DhcpView)
    requires
        m.well_formed(),
        m.chaddr.len() <= CHADDR_FIELD_LEN,
    ensures
        preamble_bytes(m).len() == 12,
        addresses_bytes(m).len() == 16,
        header_bytes(m).len() == HEADER_LEN,
{
}

/// Every option that is read from an options area can be written again: its
/// length byte tells the truth, it is no end marker, and a pad has no value.
pub proof fn lemma_parsed_options_are_encodable(b: Seq<u8>)
    requires
        parse_options(b) is Some,
    ensures
        forall|i: int|
            0 <= i < parse_options(b)->0.len() ==> (#[trigger] parse_options(b)->0[i]).encodable(),
    decreases b.len(),
{
    let options = parse_options(b)->0;
    if b.len() == 0 || b[0] == DHCP_OPTIONS_END {
    } else {
        let rest_bytes = if b[0] == DHCP_OPTION_PADD {
            b.skip(1)
        } else {
            b.skip(2 + b[1])
        };
        lemma_parsed_options_are_encodable(rest_bytes);
        let rest = parse_options(rest_bytes)->0;
        assert forall|i: int| 0 <= i < options.len() implies (#[trigger] options[i]).encodable() by {
            if i > 0 {
                assert(options[i] == rest[i - 1]);
            }
        }
    }
}

/// Reading the options written for a list that can be encoded, followed by
/// any further bytes, gives the list and then whatever those bytes hold.
pub proof fn lemma_parse_options_bytes(options: Seq<OptionView>, tail: Seq<u8>)
    requires
        forall|i: int| 0 <= i < options.len() ==> (#[trigger] options[i]).encodable(),
    ensures
        parse_options(options_bytes(options) + tail) == match parse_options(tail) {
            Some(rest) => Some(options + rest),
            None => None,
        },
    decreases options.len(),
{
    if options.len() == 0 {
        assert(options_bytes(options) + tail =~= tail);
        match parse_options(tail) {
            Some(rest) => {
                assert(options + rest =~= rest);
            },
            None => {},
        }
    } else {
        let first = options[0];
        let others = options.drop_first();
        let b = options_bytes(options) + tail;
        assert(first.encodable());
        assert forall|i: int| 0 <= i < others.len() implies (#[trigger] others[i]).encodable() by {
            assert(others[i] == options[i + 1]);
        }
        lemma_parse_options_bytes(others, tail);
        let after = options_bytes(others) + tail;
        assert(b =~= option_bytes(first) + after);
        if first.op_type == DHCP_OPTION_PADD {
            assert(b[0] == DHCP_OPTION_PADD);
            assert(b.skip(1) =~= after);
            assert(first == OptionView {
                op_type: DHCP_OPTION_PADD,
                length: 0,
                value: Seq::empty(),
            }) by {
                assert(first.value =~= Seq::<u8>::empty());
            }
        } else {
            assert(b[0] == first.op_type);
            assert(b[1] == first.length);
            assert(b.skip(2 + b[1]) =~= after);
            assert(b.subrange(2, 2 + b[1]) =~= first.value);
        }
        match parse_options(tail) {
            Some(rest) => {
                assert(seq![first] + (others + rest) =~= options + rest);
            },
            None => {},
        }
    }
}

} // verus!

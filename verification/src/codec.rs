//! Writing a message to bytes and reading it back.

use crate::message::{
    option_views, BootOps, Dhcp, DhcpOptionTlv, DhcpView, OptionView, CHADDR_FIELD_LEN,
    DHCP_OPTIONS_END, DHCP_OPTION_PADD, FIXED_LEN, HEADER_LEN, MAGIC_COOKIE,
};
use crate::wire::{
    addresses_bytes, be16, be32, chaddr_len, decode_spec, encode_spec, from_be16, from_be32,
    header_bytes, lemma_be16_round_trip, lemma_be32_round_trip, lemma_header_len,
    lemma_options_bytes_push, lemma_parse_options_bytes, lemma_parsed_options_are_encodable,
    option_bytes, options_bytes, padded, parse_options, preamble_bytes, zeros, DecodeError,
};
use vstd::prelude::*;
use vstd::slice::{slice_subrange, slice_to_vec};

verus! {

/// Why a message cannot be written to the wire.
#[derive(Clone, Copy, Debug, PartialEq, Eq, Structural)]
pub enum EncodeError {
    /// The hardware address is not `hlen` bytes long, or `hlen` is more
    /// than the 16 bytes of its field.
    BadHardwareAddress,
    /// The option at `index` is the first that cannot be written: its length
    /// byte is wrong, it is the end marker, or it is a pad with a value.
    BadOption { index: usize },
}

/// `index` is the place of the first option of the list that cannot be encoded.
pub open spec fn first_bad_option(options: Seq<OptionView>, index: int) -> bool {
    &&& 0 <= index < options.len()
    &&& !options[index].encodable()
    &&& forall|j: int| 0 <= j < index ==> (#[trigger] options[j]).encodable()
}

fn put_be16(out: &mut Vec<u8>, x: u16)
    ensures
        final(out)@ == old(out)@ + be16(x),
{
    out.push((x / 256) as u8);
    out.push((x % 256) as u8);
    assert(out@ =~= old(out)@ + be16(x));
}

fn put_be32(out: &mut Vec<u8>, x: u32)
    ensures
        final(out)@ == old(out)@ + be32(x),
{
    out.push((x / 0x100_0000) as u8);
    out.push((x / 0x1_0000 % 256) as u8);
    out.push((x / 0x100 % 256) as u8);
    out.push((x % 256) as u8);
    assert(out@ =~= old(out)@ + be32(x));
}

fn put_slice(out: &mut Vec<u8>, bytes: &[u8])
    ensures
        final(out)@ == old(out)@ + bytes@,
{
    let mut i: usize = 0;
    while i < bytes.len()
        invariant
            i <= bytes@.len(),
            out@ == old(out)@ + bytes@.take(i as int),
        decreases bytes@.len() - i,
    {
        out.push(bytes[i]);
        i += 1;
        assert(out@ =~= old(out)@ + bytes@.take(i as int));
    }
    assert(bytes@.take(i as int) =~= bytes@);
}

fn put_zeros(out: &mut Vec<u8>, n: usize)
    ensures
        final(out)@ == old(out)@ + zeros(n as nat),
{
    let mut i: usize = 0;
    while i < n
        invariant
            i <= n,
            out@ == old(out)@ + zeros(i as nat),
        decreases n - i,
    {
        out.push(0);
        i += 1;
        assert(out@ =~= old(out)@ + zeros(i as nat));
    }
}

fn put_header(out: &mut Vec<u8>, message: &Dhcp)
    requires
        message@.chaddr_fits(),
    ensures
        final(out)@ == old(out)@ + header_bytes(message@),
{
    out.push(message.op.code());
    out.push(message.htype);
    out.push(message.hlen);
    out.push(message.hops);
    put_be32(out, message.xid);
    put_be16(out, message.secs);
    put_be16(out, message.flags);
    assert(out@ =~= old(out)@ + preamble_bytes(message@));
    put_slice(out, &message.ciaddr);
    put_slice(out, &message.yiaddr);
    put_slice(out, &message.siaddr);
    put_slice(out, &message.giaddr);
    assert(out@ =~= old(out)@ + preamble_bytes(message@) + addresses_bytes(message@));
    put_slice(out, message.chaddr.as_slice());
    put_zeros(out, CHADDR_FIELD_LEN - message.chaddr.len());
    put_slice(out, &message.sname);
    put_slice(out, &message.file);
    assert(out@ =~= old(out)@ + header_bytes(message@));
}

fn put_option(out: &mut Vec<u8>, option: &DhcpOptionTlv)
    ensures
        final(out)@ == old(out)@ + option_bytes(option@),
{
    if option.op_type == DHCP_OPTION_PADD {
        out.push(DHCP_OPTION_PADD);
    } else {
        out.push(option.op_type);
        out.push(option.length);
        put_slice(out, option.value.as_slice());
    }
    assert(out@ =~= old(out)@ + option_bytes(option@));
}

fn put_options(out: &mut Vec<u8>, options: &Vec<DhcpOptionTlv>)
    ensures
        final(out)@ == old(out)@ + options_bytes(option_views(options@)),
{
    let ghost views = option_views(options@);
    let mut i: usize = 0;
    assert(options_bytes(views.take(0)) =~= Seq::<u8>::empty());
    while i < options.len()
        invariant
            i <= options@.len(),
            views == option_views(options@),
            out@ == old(out)@ + options_bytes(views.take(i as int)),
        decreases options@.len() - i,
    {
        put_option(out, &options[i]);
        proof {
            lemma_options_bytes_push(views.take(i as int), views[i as int]);
            assert(views.take(i as int).push(views[i as int]) =~= views.take(i + 1));
        }
        i += 1;
        assert(out@ =~= old(out)@ + options_bytes(views.take(i as int)));
    }
    assert(views.take(i as int) =~= views);
}

fn option_is_encodable(option: &DhcpOptionTlv) -> (ok: bool)
    ensures
        ok == option@.encodable(),
{
    option.value.len() == option.length as usize && option.op_type != DHCP_OPTIONS_END && (
    option.op_type != DHCP_OPTION_PADD || option.length == 0)
}

/// The place of the first option that cannot be encoded, if there is one.
fn find_bad_option(options: &Vec<DhcpOptionTlv>) -> (found: Option<usize>)
    ensures
        match found {
            Some(index) => first_bad_option(option_views(options@), index as int),
            None => forall|i: int|
                0 <= i < options@.len() ==> (#[trigger] option_views(options@)[i]).encodable(),
        },
{
    let mut i: usize = 0;
    while i < options.len()
        invariant
            i <= options@.len(),
            forall|j: int| 0 <= j < i ==> (#[trigger] option_views(options@)[j]).encodable(),
        decreases options@.len() - i,
    {
        if !option_is_encodable(&options[i]) {
            return Some(i);
        }
        i += 1;
    }
    None
}

/// Writes a message to the wire: the fixed header with its integers in
/// network byte order and its fields padded with zeros, the magic cookie,
/// the options in their order and the end marker.
///
/// What comes out decodes to the message again. Encoding fails only where
/// the message could not be read back as it is: with
/// [`EncodeError::BadHardwareAddress`] where the hardware address does not
/// fit, else with [`EncodeError::BadOption`] at the first option that cannot
/// be written.
pub fn encode(message: &Dhcp) -> (r: Result<Vec<u8>, EncodeError>)
    ensures
        r is Ok <==> message@.encodable(),
        match r {
            Ok(bytes) => {
                &&& bytes@ == encode_spec(message@)
                &&& bytes@.len() == FIXED_LEN + options_bytes(message@.options).len() + 1
                &&& decode_spec(bytes@) == Ok::<DhcpView, DecodeError>(message@)
            },
            Err(EncodeError::BadHardwareAddress) => !message@.chaddr_fits(),
            Err(EncodeError::BadOption { index }) => message@.chaddr_fits() && first_bad_option(
                message@.options,
                index as int,
            ),
        },
{
    if message.chaddr.len() != message.hlen as usize || message.hlen as usize > CHADDR_FIELD_LEN {
        return Err(EncodeError::BadHardwareAddress);
    }
    match find_bad_option(&message.options) {
        Some(index) => {
            assert(!message@.options[index as int].encodable());
            Err(EncodeError::BadOption { index })
        },
        None => {
            assert(message@.encodable());
            proof {
                lemma_encoded_len(message@);
                lemma_decode_encode(message@);
            }
            let mut out: Vec<u8> = Vec::new();
            put_header(&mut out, message);
            put_be32(&mut out, MAGIC_COOKIE);
            put_options(&mut out, &message.options);
            out.push(DHCP_OPTIONS_END);
            assert(out@ =~= encode_spec(message@));
            Ok(out)
        },
    }
}

fn get_be16(bytes: &[u8], at: usize) -> (x: u16)
    requires
        at + 2 <= bytes@.len(),
    ensures
        x == from_be16(bytes@.subrange(at as int, at + 2)),
{
    let hi: u16 = bytes[at] as u16;
    let lo: u16 = bytes[at + 1] as u16;
    hi * 256 + lo
}

fn get_be32(bytes: &[u8], at: usize) -> (x: u32)
    requires
        at + 4 <= bytes@.len(),
    ensures
        x == from_be32(bytes@.subrange(at as int, at + 4)),
{
    let b0: u32 = bytes[at] as u32;
    let b1: u32 = bytes[at + 1] as u32;
    let b2: u32 = bytes[at + 2] as u32;
    let b3: u32 = bytes[at + 3] as u32;
    b0 * 0x100_0000 + b1 * 0x1_0000 + b2 * 0x100 + b3
}

fn get_array<const N: usize>(bytes: &[u8], at: usize) -> (field: [u8; N])
    requires
        at + N <= bytes@.len(),
    ensures
        field@ == bytes@.subrange(at as int, at + N),
{
    let len = bytes.len();
    let mut field: [u8; N] = [0u8; N];
    let mut i: usize = 0;
    while i < N
        invariant
            i <= N,
            at + N <= len == bytes@.len(),
            forall|j: int| 0 <= j < i ==> field@[j] == bytes@[at + j],
        decreases N - i,
    {
        field[i] = bytes[at + i];
        i += 1;
    }
    assert(field@ =~= bytes@.subrange(at as int, at + N));
    field
}

/// Reads the options area that starts at `start`.
fn get_options(bytes: &[u8], start: usize) -> (found: Option<Vec<DhcpOptionTlv>>)
    requires
        start <= bytes@.len(),
    ensures
        match found {
            Some(options) => parse_options(bytes@.skip(start as int)) == Some(
                option_views(options@),
            ),
            None => parse_options(bytes@.skip(start as int)) is None,
        },
{
    let ghost all = parse_options(bytes@.skip(start as int));
    let mut options: Vec<DhcpOptionTlv> = Vec::new();
    let mut at: usize = start;
    assert(option_views(options@) =~= Seq::<OptionView>::empty());
    proof {
        match parse_options(bytes@.skip(at as int)) {
            Some(rest) => {
                assert(option_views(options@) + rest =~= rest);
            },
            None => {},
        }
    }
    loop
        invariant
            start <= at <= bytes@.len(),
            all == parse_options(bytes@.skip(start as int)),
            all == match parse_options(bytes@.skip(at as int)) {
                Some(rest) => Some(option_views(options@) + rest),
                None => None,
            },
        decreases bytes@.len() - at,
    {
        let ghost here = bytes@.skip(at as int);
        let ghost before = option_views(options@);
        if at == bytes.len() || bytes[at] == DHCP_OPTIONS_END {
            assert(parse_options(here) == Some(Seq::<OptionView>::empty()));
            assert(before + Seq::<OptionView>::empty() =~= before);
            return Some(options);
        }
        let code = bytes[at];
        assert(here[0] == code);
        if code == DHCP_OPTION_PADD {
            let pad = DhcpOptionTlv::pad();
            let ghost pad_view = pad@;
            options.push(pad);
            at += 1;
            proof {
                assert(here.skip(1) =~= bytes@.skip(at as int));
                assert(option_views(options@) =~= before.push(pad_view));
                match parse_options(bytes@.skip(at as int)) {
                    Some(rest) => {
                        assert(before + (seq![pad_view] + rest) =~= option_views(options@) + rest);
                    },
                    None => {},
                }
            }
        } else {
            if bytes.len() - at < 2 {
                assert(here.len() < 2);
                return None;
            }
            let length = bytes[at + 1];
            assert(here[1] == length);
            if bytes.len() - at - 2 < length as usize {
                assert(here.len() < 2 + here[1]);
                return None;
            }
            let value = slice_to_vec(slice_subrange(bytes, at + 2, at + 2 + length as usize));
            assert(value@ =~= here.subrange(2, 2 + length));
            let option = DhcpOptionTlv { op_type: code, length, value };
            let ghost view = option@;
            options.push(option);
            at += 2 + length as usize;
            proof {
                assert(here.skip(2 + length) =~= bytes@.skip(at as int));
                assert(option_views(options@) =~= before.push(view));
                match parse_options(bytes@.skip(at as int)) {
                    Some(rest) => {
                        assert(before + (seq![view] + rest) =~= option_views(options@) + rest);
                    },
                    None => {},
                }
            }
        }
    }
}

/// Four bytes are the magic cookie exactly when they stand for its number.
proof fn lemma_cookie(b: Seq<u8>)
    requires
        b.len() == 4,
    ensures
        b == be32(MAGIC_COOKIE) <==> from_be32(b) == MAGIC_COOKIE,
{
    lemma_be32_round_trip(MAGIC_COOKIE);
    if from_be32(b) == MAGIC_COOKIE {
        assert(b =~= be32(MAGIC_COOKIE));
    }
}

/// Reads a message from a buffer, checking every bound.
///
/// Fails with [`DecodeError::Truncated`] on fewer than 240 bytes, with
/// [`DecodeError::BadMagicCookie`] where the four bytes after the header are
/// not the cookie, with [`DecodeError::BadOp`] where the first byte is no
/// operation, and with [`DecodeError::TruncatedOption`] where an option says
/// it is longer than what is left of the buffer. Bytes after the end marker
/// are not read.
pub fn decode(bytes: &[u8]) -> (r: Result<Dhcp, DecodeError>)
    ensures
        match r {
            Ok(message) => decode_spec(bytes@) == Ok::<DhcpView, DecodeError>(message@),
            Err(e) => decode_spec(bytes@) == Err::<DhcpView, DecodeError>(e),
        },
        bytes@.len() < FIXED_LEN ==> r == Err::<Dhcp, DecodeError>(DecodeError::Truncated),
        bytes@.len() >= FIXED_LEN && bytes@.subrange(236, 240) != be32(MAGIC_COOKIE) ==> r
            == Err::<Dhcp, DecodeError>(DecodeError::BadMagicCookie),
        r matches Ok(message) ==> message@.hlen <= CHADDR_FIELD_LEN ==> message@.encodable(),
{
    proof {
        lemma_decoded_is_well_formed(bytes@);
    }
    if bytes.len() < FIXED_LEN {
        return Err(DecodeError::Truncated);
    }
    proof {
        lemma_cookie(bytes@.subrange(236, 240));
    }
    if get_be32(bytes, HEADER_LEN) != MAGIC_COOKIE {
        return Err(DecodeError::BadMagicCookie);
    }
    let op = match BootOps::from_code(bytes[0]) {
        Some(op) => op,
        None => {
            return Err(DecodeError::BadOp);
        },
    };
    let options = match get_options(bytes, FIXED_LEN) {
        Some(options) => options,
        None => {
            return Err(DecodeError::TruncatedOption);
        },
    };
    let hlen = bytes[2];
    let chaddr_end: usize = if hlen as usize <= CHADDR_FIELD_LEN {
        28 + hlen as usize
    } else {
        28 + CHADDR_FIELD_LEN
    };
    let message = Dhcp {
        op,
        htype: bytes[1],
        hlen,
        hops: bytes[3],
        xid: get_be32(bytes, 4),
        secs: get_be16(bytes, 8),
        flags: get_be16(bytes, 10),
        ciaddr: get_array::<4>(bytes, 12),
        yiaddr: get_array::<4>(bytes, 16),
        siaddr: get_array::<4>(bytes, 20),
        giaddr: get_array::<4>(bytes, 24),
        chaddr: slice_to_vec(slice_subrange(bytes, 28, chaddr_end)),
        sname: get_array::<64>(bytes, 44),
        file: get_array::<128>(bytes, 108),
        options,
    };
    Ok(message)
}

/// An encoded message is the 236-byte header, the 4-byte cookie, the bytes
/// of its options and one end marker, which is its last byte.
pub proof fn lemma_encoded_len(m: DhcpView)
    requires
        m.well_formed(),
        m.chaddr_fits(),
    ensures
        encode_spec(m).len() == FIXED_LEN + options_bytes(m.options).len() + 1,
        encode_spec(m).last() == DHCP_OPTIONS_END,
{
    lemma_header_len(m);
}

/// Decoding what `encode` wrote gives the message back: for every message
/// that can be encoded, `decode(encode(m)) == m`.
pub proof fn lemma_decode_encode(m: DhcpView)
    requires
        m.well_formed(),
        m.encodable(),
    ensures
        decode_spec(encode_spec(m)) == Ok::<DhcpView, DecodeError>(m),
{
    let b = encode_spec(m);
    let pre = preamble_bytes(m);
    let addr = addresses_bytes(m);
    let head = header_bytes(m);
    let tail = seq![DHCP_OPTIONS_END];
    lemma_header_len(m);
    lemma_be32_round_trip(m.xid);
    lemma_be16_round_trip(m.secs);
    lemma_be16_round_trip(m.flags);
    assert(b.subrange(0, 236) =~= head);
    assert(b.subrange(236, 240) =~= be32(MAGIC_COOKIE));
    assert(b.skip(240) =~= options_bytes(m.options) + tail);
    lemma_parse_options_bytes(m.options, tail);
    assert(parse_options(tail) == Some(Seq::<OptionView>::empty()));
    assert(m.options + Seq::<OptionView>::empty() =~= m.options);
    assert(head.subrange(0, 12) =~= pre);
    assert(head.subrange(12, 28) =~= addr);
    assert(head.subrange(28, 44) =~= padded(m.chaddr, CHADDR_FIELD_LEN as nat));
    assert(b[0] == m.op.spec_code());
    assert(b[1] == m.htype);
    assert(b[2] == m.hlen);
    assert(b[3] == m.hops);
    assert(b.subrange(4, 8) =~= be32(m.xid));
    assert(b.subrange(8, 10) =~= be16(m.secs));
    assert(b.subrange(10, 12) =~= be16(m.flags));
    assert(b.subrange(12, 16) =~= m.ciaddr);
    assert(b.subrange(16, 20) =~= m.yiaddr);
    assert(b.subrange(20, 24) =~= m.siaddr);
    assert(b.subrange(24, 28) =~= m.giaddr);
    assert(chaddr_len(m.hlen) == m.chaddr.len());
    assert(b.subrange(28, 28 + chaddr_len(b[2])) =~= m.chaddr);
    assert(b.subrange(44, 108) =~= m.sname);
    assert(b.subrange(108, 236) =~= m.file);
    assert(BootOps::spec_from_code(m.op.spec_code()) == Some(m.op));
}

/// What decoding gives is a message with fields of the right widths, with
/// as many hardware address bytes as `hlen` says, up to 16, and with
/// options that can be written again; so a decoded message whose `hlen` is
/// at most 16 can be encoded.
pub proof fn lemma_decoded_is_well_formed(b: Seq<u8>)
    ensures
        decode_spec(b) matches Ok(m) ==> {
            &&& m.well_formed()
            &&& m.chaddr.len() == chaddr_len(m.hlen)
            &&& forall|i: int| 0 <= i < m.options.len() ==> (#[trigger] m.options[i]).encodable()
            &&& m.hlen <= CHADDR_FIELD_LEN ==> m.encodable()
        },
{
    if let Ok(m) = decode_spec(b) {
        lemma_parsed_options_are_encodable(b.skip(240));
    }
}

/// A buffer of fewer than 240 bytes, or one whose four bytes after the
/// header are not the magic cookie, is never a message.
pub proof fn lemma_decode_rejects(b: Seq<u8>)
    ensures
        b.len() < FIXED_LEN ==> decode_spec(b) == Err::<DhcpView, DecodeError>(
            DecodeError::Truncated,
        ),
        b.len() >= FIXED_LEN && b.subrange(236, 240) != be32(MAGIC_COOKIE) ==> decode_spec(b)
            == Err::<DhcpView, DecodeError>(DecodeError::BadMagicCookie),
{
}

} // verus!

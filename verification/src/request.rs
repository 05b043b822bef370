//! The messages that a client sends: DISCOVER, the forms of REQUEST, and
//! DECLINE.

use crate::message::{
    option_views, BootOps, Dhcp, DhcpMessage, DhcpOptionTlv, DhcpView, OptionView,
    CHADDR_FIELD_LEN,
};
use crate::options::{
    option_value, OPTION_MESSAGE_TYPE, OPTION_REQUESTED_ADDRESS, OPTION_SERVER_ID,
};
use crate::wire::zeros;
use vstd::prelude::*;
use vstd::slice::slice_to_vec;

verus! {

/// The flag that asks the server to answer by broadcast: bit 15 of `flags`.
pub const BROADCAST_FLAG: u16 = 0x8000;

/// The hardware type of Ethernet.
pub const ETHERNET: u8 = 1;

/// The `hops` of a message that no relay has touched.
pub const CLIENT_HOPS: u8 = 0;

/// The address of a client that has none yet.
pub const UNSPECIFIED: [u8; 4] = [0, 0, 0, 0];

/// The option that says what kind a message is.
pub open spec fn kind_option(kind: DhcpMessage) -> OptionView {
    OptionView { op_type: OPTION_MESSAGE_TYPE, length: 1, value: seq![kind.spec_code()] }
}

/// An option that holds one address, or nothing where there is none to hold.
pub open spec fn address_options(code: u8, address: Option<[u8; 4]>) -> Seq<OptionView> {
    match address {
        Some(a) => seq![OptionView { op_type: code, length: 4, value: a@ }],
        None => Seq::empty(),
    }
}

/// A message from a client: a BOOTREQUEST over Ethernet with the client's
/// hardware address, no relay, no addresses but `ciaddr`, empty server and
/// file names, and as options the kind, then the requested address and the
/// server identifier where they are given.
pub open spec fn client_message(
    kind: DhcpMessage,
    xid: u32,
    chaddr: Seq<u8>,
    flags: u16,
    ciaddr: [u8; 4],
    requested: Option<[u8; 4]>,
    server: Option<[u8; 4]>,
) -> DhcpView {
    DhcpView {
        op: BootOps::BOOTPREQUEST,
        htype: ETHERNET,
        hlen: chaddr.len() as u8,
        hops: CLIENT_HOPS,
        xid,
        secs: 0,
        flags,
        ciaddr: ciaddr@,
        yiaddr: zeros(4),
        siaddr: zeros(4),
        giaddr: zeros(4),
        chaddr,
        sname: zeros(64),
        file: zeros(128),
        options: seq![kind_option(kind)] + address_options(OPTION_REQUESTED_ADDRESS, requested)
            + address_options(OPTION_SERVER_ID, server),
    }
}

/// DISCOVER: asks every server for an offer.
pub open spec fn discover_view(xid: u32, chaddr: Seq<u8>) -> DhcpView {
    client_message(DhcpMessage::Discover, xid, chaddr, BROADCAST_FLAG, UNSPECIFIED, None, None)
}

/// REQUEST while selecting: takes the offer of one server, in the hearing of all.
pub open spec fn request_offer_view(
    xid: u32,
    chaddr: Seq<u8>,
    address: [u8; 4],
    server: [u8; 4],
) -> DhcpView {
    client_message(
        DhcpMessage::Request,
        xid,
        chaddr,
        BROADCAST_FLAG,
        UNSPECIFIED,
        Some(address),
        Some(server),
    )
}

/// REQUEST after a reboot: asks for the address that the client remembers.
pub open spec fn request_reboot_view(xid: u32, chaddr: Seq<u8>, address: [u8; 4]) -> DhcpView {
    client_message(
        DhcpMessage::Request,
        xid,
        chaddr,
        BROADCAST_FLAG,
        UNSPECIFIED,
        Some(address),
        None,
    )
}

/// REQUEST while renewing or rebinding: asks to keep the address in use,
/// which goes in `ciaddr`.
pub open spec fn request_renew_view(xid: u32, chaddr: Seq<u8>, address: [u8; 4]) -> DhcpView {
    client_message(DhcpMessage::Request, xid, chaddr, 0, address, None, None)
}

/// DECLINE: tells the server that the address it gave is in use.
pub open spec fn decline_view(
    xid: u32,
    chaddr: Seq<u8>,
    address: [u8; 4],
    server: [u8; 4],
) -> DhcpView {
    client_message(DhcpMessage::Decline, xid, chaddr, 0, UNSPECIFIED, Some(address), Some(server))
}

/// RELEASE: gives the address in use back to the server that leased it.
pub open spec fn release_view(
    xid: u32,
    chaddr: Seq<u8>,
    address: [u8; 4],
    server: [u8; 4],
) -> DhcpView {
    client_message(DhcpMessage::Release, xid, chaddr, 0, address, None, Some(server))
}

/// Every message of a client whose hardware address fits its field can be
/// encoded, carries the transaction id it was built with, and is of the
/// kind it was built as.
pub proof fn lemma_client_message(
    kind: DhcpMessage,
    xid: u32,
    chaddr: Seq<u8>,
    flags: u16,
    ciaddr: [u8; 4],
    requested: Option<[u8; 4]>,
    server: Option<[u8; 4]>,
)
    requires
        chaddr.len() <= CHADDR_FIELD_LEN,
    ensures
        client_message(kind, xid, chaddr, flags, ciaddr, requested, server).well_formed(),
        client_message(kind, xid, chaddr, flags, ciaddr, requested, server).encodable(),
        client_message(kind, xid, chaddr, flags, ciaddr, requested, server).xid == xid,
        client_message(kind, xid, chaddr, flags, ciaddr, requested, server).message_type() == Some(
            kind,
        ),
{
    let m = client_message(kind, xid, chaddr, flags, ciaddr, requested, server);
    assert(m.options[0] == kind_option(kind));
    assert(option_value(m.options, OPTION_MESSAGE_TYPE) == Some(seq![kind.spec_code()]));
    assert(DhcpMessage::spec_from_code(kind.spec_code()) == Some(kind));
    assert forall|i: int| 0 <= i < m.options.len() implies (#[trigger] m.options[i]).encodable() by {
        let first = address_options(OPTION_REQUESTED_ADDRESS, requested);
        let second = address_options(OPTION_SERVER_ID, server);
        if i == 0 {
        } else if i < 1 + first.len() {
            assert(m.options[i] == first[i - 1]);
        } else {
            assert(m.options[i] == second[i - 1 - first.len()]);
        }
    }
}

fn zero_field<const N: usize>() -> (field: [u8; N])
    ensures
        field@ == zeros(N as nat),
{
    let field: [u8; N] = [0u8; N];
    assert(field@ =~= zeros(N as nat));
    field
}

/// Builds a message from a client.
pub fn build_message(
    kind: DhcpMessage,
    xid: u32,
    chaddr: &Vec<u8>,
    flags: u16,
    ciaddr: [u8; 4],
    requested: Option<[u8; 4]>,
    server: Option<[u8; 4]>,
) -> (message: Dhcp)
    requires
        chaddr@.len() <= CHADDR_FIELD_LEN,
    ensures
        message@ == client_message(kind, xid, chaddr@, flags, ciaddr, requested, server),
        message@.encodable(),
{
    let mut options: Vec<DhcpOptionTlv> = Vec::new();
    options.push(DhcpOptionTlv::message_type(kind));
    match requested {
        Some(address) => {
            options.push(DhcpOptionTlv::address(OPTION_REQUESTED_ADDRESS, address));
        },
        None => {},
    }
    match server {
        Some(address) => {
            options.push(DhcpOptionTlv::address(OPTION_SERVER_ID, address));
        },
        None => {},
    }
    assert(option_views(options@) =~= seq![kind_option(kind)] + address_options(
        OPTION_REQUESTED_ADDRESS,
        requested,
    ) + address_options(OPTION_SERVER_ID, server));
    proof {
        lemma_client_message(kind, xid, chaddr@, flags, ciaddr, requested, server);
    }
    Dhcp {
        op: BootOps::BOOTPREQUEST,
        htype: ETHERNET,
        hlen: chaddr.len() as u8,
        hops: CLIENT_HOPS,
        xid,
        secs: 0,
        flags,
        ciaddr,
        yiaddr: zero_field::<4>(),
        siaddr: zero_field::<4>(),
        giaddr: zero_field::<4>(),
        chaddr: slice_to_vec(chaddr.as_slice()),
        sname: zero_field::<64>(),
        file: zero_field::<128>(),
        options,
    }
}

} // verus!

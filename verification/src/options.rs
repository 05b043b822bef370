//! Looking options up by their code, and reading the ones that a lease
//! depends on.

use crate::message::{option_views, Dhcp, DhcpMessage, DhcpOptionTlv, DhcpView, OptionView};
use crate::wire::{be32, from_be32};
use vstd::prelude::*;

verus! {

/// Option code of the subnet mask.
pub const OPTION_SUBNET_MASK: u8 = 1;

/// Option code of the list of routers.
pub const OPTION_ROUTER: u8 = 3;

/// Option code of the address that a client asks for.
pub const OPTION_REQUESTED_ADDRESS: u8 = 50;

/// Option code of the lease duration, in seconds.
pub const OPTION_LEASE_TIME: u8 = 51;

/// Option code of the message kind.
pub const OPTION_MESSAGE_TYPE: u8 = 53;

/// Option code of the server identifier.
pub const OPTION_SERVER_ID: u8 = 54;

/// Option code of the renewal time T1, in seconds.
pub const OPTION_RENEWAL_TIME: u8 = 58;

/// Option code of the rebinding time T2, in seconds.
pub const OPTION_REBINDING_TIME: u8 = 59;

/// The value of the first option of the list that has the given code.
pub open spec fn option_value(options: Seq<OptionView>, code: u8) -> Option<Seq<u8>>
    decreases options.len(),
{
    if options.len() == 0 {
        None
    } else if options[0].op_type == code {
        Some(options[0].value)
    } else {
        option_value(options.drop_first(), code)
    }
}

/// `index` is the place of the first option of the list with the given code.
pub open spec fn is_first_with_code(options: Seq<OptionView>, code: u8, index: int) -> bool {
    &&& 0 <= index < options.len()
    &&& options[index].op_type == code
    &&& forall|j: int| 0 <= j < index ==> (#[trigger] options[j]).op_type != code
}

impl DhcpView {
    /// The kind of the message: what its first option 53 says, where that
    /// option holds exactly one byte and the byte is a known kind.
    pub open spec fn message_type(self) -> Option<DhcpMessage> {
        match option_value(self.options, OPTION_MESSAGE_TYPE) {
            Some(value) => if value.len() == 1 {
                DhcpMessage::spec_from_code(value[0])
            } else {
                None
            },
            None => None,
        }
    }

    /// The number that the first option with this code holds, where its
    /// value is exactly four bytes.
    pub open spec fn u32_option(self, code: u8) -> Option<u32> {
        match option_value(self.options, code) {
            Some(value) => if value.len() == 4 {
                Some(from_be32(value))
            } else {
                None
            },
            None => None,
        }
    }

    /// The first address that the first option with this code holds, where
    /// its value is one or more whole addresses.
    pub open spec fn address_option(self, code: u8) -> Option<Seq<u8>> {
        match option_value(self.options, code) {
            Some(value) => if value.len() >= 4 && value.len() % 4 == 0 {
                Some(value.subrange(0, 4))
            } else {
                None
            },
            None => None,
        }
    }
}

/// Finds the first option with the given code.
pub fn find_option(options: &Vec<DhcpOptionTlv>, code: u8) -> (found: Option<usize>)
    ensures
        match found {
            Some(index) => is_first_with_code(option_views(options@), code, index as int)
                && option_value(option_views(options@), code) == Some(options@[index as int].value@),
            None => option_value(option_views(options@), code) is None && forall|j: int|
                0 <= j < options@.len() ==> (#[trigger] option_views(options@)[j]).op_type != code,
        },
{
    let ghost views = option_views(options@);
    let mut i: usize = 0;
    assert(views.skip(0) =~= views);
    while i < options.len()
        invariant
            i <= options@.len(),
            views == option_views(options@),
            option_value(views, code) == option_value(views.skip(i as int), code),
            forall|j: int| 0 <= j < i ==> (#[trigger] views[j]).op_type != code,
        decreases options@.len() - i,
    {
        assert(views.skip(i as int)[0] == views[i as int]);
        if options[i].op_type == code {
            return Some(i);
        }
        assert(views.skip(i as int).drop_first() =~= views.skip(i + 1));
        i += 1;
    }
    assert(views.skip(i as int).len() == 0);
    None
}

impl DhcpOptionTlv {
    /// The option that says what kind a message is.
    pub fn message_type(kind: DhcpMessage) -> (option: DhcpOptionTlv)
        ensures
            option@ == (OptionView {
                op_type: OPTION_MESSAGE_TYPE,
                length: 1,
                value: seq![kind.spec_code()],
            }),
            option@.encodable(),
    {
        let mut value: Vec<u8> = Vec::new();
        value.push(kind.code());
        assert(value@ =~= seq![kind.spec_code()]);
        DhcpOptionTlv { op_type: OPTION_MESSAGE_TYPE, length: 1, value }
    }

    /// An option that holds one address.
    pub fn address(code: u8, address: [u8; 4]) -> (option: DhcpOptionTlv)
        ensures
            option@ == (OptionView { op_type: code, length: 4, value: address@ }),
    {
        let mut value: Vec<u8> = Vec::new();
        value.push(address[0]);
        value.push(address[1]);
        value.push(address[2]);
        value.push(address[3]);
        assert(value@ =~= address@);
        DhcpOptionTlv { op_type: code, length: 4, value }
    }

    /// An option that holds one 32-bit number in network byte order.
    pub fn number(code: u8, x: u32) -> (option: DhcpOptionTlv)
        ensures
            option@ == (OptionView { op_type: code, length: 4, value: be32(x) }),
    {
        let mut value: Vec<u8> = Vec::new();
        value.push((x / 0x100_0000) as u8);
        value.push((x / 0x1_0000 % 256) as u8);
        value.push((x / 0x100 % 256) as u8);
        value.push((x % 256) as u8);
        assert(value@ =~= be32(x));
        DhcpOptionTlv { op_type: code, length: 4, value }
    }
}

impl Dhcp {
    /// The kind of the message, where its option 53 names one.
    pub fn message_type(&self) -> (kind: Option<DhcpMessage>)
        ensures
            kind == self@.message_type(),
    {
        match find_option(&self.options, OPTION_MESSAGE_TYPE) {
            Some(index) => {
                let value = &self.options[index].value;
                if value.len() == 1 {
                    DhcpMessage::from_code(value[0])
                } else {
                    None
                }
            },
            None => None,
        }
    }

    /// The number held by the first option with this code, where it holds
    /// exactly four bytes.
    pub fn u32_option(&self, code: u8) -> (number: Option<u32>)
        ensures
            number == self@.u32_option(code),
    {
        match find_option(&self.options, code) {
            Some(index) => {
                let value = &self.options[index].value;
                if value.len() == 4 {
                    let b0: u32 = value[0] as u32;
                    let b1: u32 = value[1] as u32;
                    let b2: u32 = value[2] as u32;
                    let b3: u32 = value[3] as u32;
                    Some(b0 * 0x100_0000 + b1 * 0x1_0000 + b2 * 0x100 + b3)
                } else {
                    None
                }
            },
            None => None,
        }
    }

    /// The first address held by the first option with this code, where it
    /// holds one or more whole addresses.
    pub fn address_option(&self, code: u8) -> (address: Option<[u8; 4]>)
        ensures
            match address {
                Some(a) => self@.address_option(code) == Some(a@),
                None => self@.address_option(code) is None,
            },
    {
        match find_option(&self.options, code) {
            Some(index) => {
                let value = &self.options[index].value;
                if value.len() >= 4 && value.len() % 4 == 0 {
                    let a: [u8; 4] = [value[0], value[1], value[2], value[3]];
                    assert(a@ =~= value@.subrange(0, 4));
                    Some(a)
                } else {
                    None
                }
            },
            None => None,
        }
    }

    /// The lease duration that the message offers, in seconds.
    pub fn lease_time(&self) -> (secs: Option<u32>)
        ensures
            secs == self@.u32_option(OPTION_LEASE_TIME),
    {
        self.u32_option(OPTION_LEASE_TIME)
    }

    /// The renewal time T1 that the server asks for, in seconds.
    pub fn renewal_time(&self) -> (secs: Option<u32>)
        ensures
            secs == self@.u32_option(OPTION_RENEWAL_TIME),
    {
        self.u32_option(OPTION_RENEWAL_TIME)
    }

    /// The rebinding time T2 that the server asks for, in seconds.
    pub fn rebinding_time(&self) -> (secs: Option<u32>)
        ensures
            secs == self@.u32_option(OPTION_REBINDING_TIME),
    {
        self.u32_option(OPTION_REBINDING_TIME)
    }

    /// The address by which the server names itself.
    pub fn server_identifier(&self) -> (address: Option<[u8; 4]>)
        ensures
            match address {
                Some(a) => self@.address_option(OPTION_SERVER_ID) == Some(a@),
                None => self@.address_option(OPTION_SERVER_ID) is None,
            },
    {
        self.address_option(OPTION_SERVER_ID)
    }

    /// The subnet mask that comes with the address.
    pub fn subnet_mask(&self) -> (mask: Option<[u8; 4]>)
        ensures
            match mask {
                Some(a) => self@.address_option(OPTION_SUBNET_MASK) == Some(a@),
                None => self@.address_option(OPTION_SUBNET_MASK) is None,
            },
    {
        self.address_option(OPTION_SUBNET_MASK)
    }

    /// The first router of the subnet.
    pub fn router(&self) -> (address: Option<[u8; 4]>)
        ensures
            match address {
                Some(a) => self@.address_option(OPTION_ROUTER) == Some(a@),
                None => self@.address_option(OPTION_ROUTER) is None,
            },
    {
        self.address_option(OPTION_ROUTER)
    }
}

} // verus!

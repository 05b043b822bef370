//! The DHCP message and its parts, with their mathematical views.

use vstd::prelude::*;

verus! {

/// The value that opens the options area of every DHCP message.
pub const MAGIC_COOKIE: u32 = 0x6382_5363;

/// Option code of a pad byte, which carries no length and no value.
pub const DHCP_OPTION_PADD: u8 = 0;

/// Option code of the end marker, which closes the options area.
pub const DHCP_OPTIONS_END: u8 = 255;

/// Width of the hardware address field on the wire.
pub const CHADDR_FIELD_LEN: usize = 16;

/// Width of the server name field on the wire.
pub const SNAME_FIELD_LEN: usize = 64;

/// Width of the boot file name field on the wire.
pub const FILE_FIELD_LEN: usize = 128;

/// Number of bytes before the magic cookie.
pub const HEADER_LEN: usize = 236;

/// Number of bytes before the first option: the header and the magic cookie.
pub const FIXED_LEN: usize = 240;

/// The `op` field: whether a message is a request or a reply.
#[derive(Clone, Copy, Debug, PartialEq, Eq, Structural)]
pub enum BootOps {
    BOOTPREQUEST,
    BOOTPREPLY,
}

impl BootOps {
    /// The byte that stands for this operation on the wire.
    pub open spec fn spec_code(self) -> u8 {
        match self {
            BootOps::BOOTPREQUEST => 1,
            BootOps::BOOTPREPLY => 2,
        }
    }

    /// The operation that a wire byte stands for, if any.
    pub open spec fn spec_from_code(code: u8) -> Option<BootOps> {
        if code == 1 {
            Some(BootOps::BOOTPREQUEST)
        } else if code == 2 {
            Some(BootOps::BOOTPREPLY)
        } else {
            None
        }
    }

    #[verifier::when_used_as_spec(spec_code)]
    pub fn code(self) -> (c: u8)
        ensures
            c == self.spec_code(),
    {
        match self {
            BootOps::BOOTPREQUEST => 1,
            BootOps::BOOTPREPLY => 2,
        }
    }

    pub fn from_code(code: u8) -> (op: Option<BootOps>)
        ensures
            op == Self::spec_from_code(code),
    {
        if code == 1 {
            Some(BootOps::BOOTPREQUEST)
        } else if code == 2 {
            Some(BootOps::BOOTPREPLY)
        } else {
            None
        }
    }
}

/// The kind of a DHCP message, carried as the value of option 53.
/// The variants stand in the order of their wire codes, 1 to 8.
#[derive(Clone, Copy, Debug, PartialEq, Eq, Structural)]
pub enum DhcpMessage {
    Discover,
    Offer,
    Request,
    Decline,
    Ack,
    Nack,
    Release,
    Inform,
}

impl DhcpMessage {
    /// The byte that stands for this kind on the wire.
    pub open spec fn spec_code(self) -> u8 {
        match self {
            DhcpMessage::Discover => 1,
            DhcpMessage::Offer => 2,
            DhcpMessage::Request => 3,
            DhcpMessage::Decline => 4,
            DhcpMessage::Ack => 5,
            DhcpMessage::Nack => 6,
            DhcpMessage::Release => 7,
            DhcpMessage::Inform => 8,
        }
    }

    /// The kind that a wire byte stands for, if any.
    pub open spec fn spec_from_code(code: u8) -> Option<DhcpMessage> {
        if code == 1 {
            Some(DhcpMessage::Discover)
        } else if code == 2 {
            Some(DhcpMessage::Offer)
        } else if code == 3 {
            Some(DhcpMessage::Request)
        } else if code == 4 {
            Some(DhcpMessage::Decline)
        } else if code == 5 {
            Some(DhcpMessage::Ack)
        } else if code == 6 {
            Some(DhcpMessage::Nack)
        } else if code == 7 {
            Some(DhcpMessage::Release)
        } else if code == 8 {
            Some(DhcpMessage::Inform)
        } else {
            None
        }
    }

    #[verifier::when_used_as_spec(spec_code)]
    pub fn code(self) -> (c: u8)
        ensures
            c == self.spec_code(),
    {
        match self {
            DhcpMessage::Discover => 1,
            DhcpMessage::Offer => 2,
            DhcpMessage::Request => 3,
            DhcpMessage::Decline => 4,
            DhcpMessage::Ack => 5,
            DhcpMessage::Nack => 6,
            DhcpMessage::Release => 7,
            DhcpMessage::Inform => 8,
        }
    }

    pub fn from_code(code: u8) -> (kind: Option<DhcpMessage>)
        ensures
            kind == Self::spec_from_code(code),
    {
        match code {
            1 => Some(DhcpMessage::Discover),
            2 => Some(DhcpMessage::Offer),
            3 => Some(DhcpMessage::Request),
            4 => Some(DhcpMessage::Decline),
            5 => Some(DhcpMessage::Ack),
            6 => Some(DhcpMessage::Nack),
            7 => Some(DhcpMessage::Release),
            8 => Some(DhcpMessage::Inform),
            _ => None,
        }
    }
}

/// One option of a message: a code, a length byte and that many value bytes.
/// A pad byte is held as an option with code 0 and no value.
#[derive(Clone, Debug, PartialEq, Eq)]
pub struct DhcpOptionTlv {
    pub op_type: u8,
    pub length: u8,
    pub value: Vec<u8>,
}

/// What a [`DhcpOptionTlv`] holds, as plain mathematical values.
pub struct OptionView {
    pub op_type: u8,
    pub length: u8,
    pub value: Seq<u8>,
}

impl OptionView {
    /// The option can be written to the wire and read back unchanged: its
    /// length byte tells the truth, it is not the end marker, and a pad has
    /// no value.
    pub open spec fn encodable(self) -> bool {
        &&& self.value.len() == self.length
        &&& self.op_type != DHCP_OPTIONS_END
        &&& self.op_type == DHCP_OPTION_PADD ==> self.length == 0
    }
}

impl View for DhcpOptionTlv {
    type V = OptionView;

    open spec fn view(&self) -> OptionView {
        OptionView { op_type: self.op_type, length: self.length, value: self.value@ }
    }
}

/// The views of a list of options, one by one.
pub open spec fn option_views(options: Seq<DhcpOptionTlv>) -> Seq<OptionView> {
    options.map_values(|o: DhcpOptionTlv| o@)
}

impl DhcpOptionTlv {
    /// An option with the given code and value, or `None` where the value
    /// is longer than a length byte can say.
    pub fn new(op_type: u8, value: Vec<u8>) -> (option: Option<DhcpOptionTlv>)
        ensures
            value@.len() > 255 ==> option is None,
            value@.len() <= 255 ==> option is Some && option->0@ == (OptionView {
                op_type,
                length: value@.len() as u8,
                value: value@,
            }),
    {
        if value.len() > 255 {
            None
        } else {
            let length = value.len() as u8;
            Some(DhcpOptionTlv { op_type, length, value })
        }
    }

    /// The pad marker.
    pub fn pad() -> (option: DhcpOptionTlv)
        ensures
            option@ == (OptionView { op_type: DHCP_OPTION_PADD, length: 0, value: Seq::empty() }),
            option@.encodable(),
    {
        DhcpOptionTlv { op_type: DHCP_OPTION_PADD, length: 0, value: Vec::new() }
    }
}

/// A DHCP message: the fixed header fields and the options in wire order.
#[derive(Clone, Debug, PartialEq, Eq)]
pub struct Dhcp {
    pub op: BootOps,
    /// Hardware type; 1 is Ethernet.
    pub htype: u8,
    /// Length of the hardware address in bytes.
    pub hlen: u8,
    pub hops: u8,
    pub xid: u32,
    pub secs: u16,
    /// Bit 15 asks the server to reply by broadcast.
    pub flags: u16,
    pub ciaddr: [u8; 4],
    pub yiaddr: [u8; 4],
    pub siaddr: [u8; 4],
    pub giaddr: [u8; 4],
    /// The hardware address itself, `hlen` bytes; the wire pads it to 16.
    pub chaddr: Vec<u8>,
    pub sname: [u8; 64],
    pub file: [u8; 128],
    pub options: Vec<DhcpOptionTlv>,
}

/// What a [`Dhcp`] holds, as plain mathematical values.
pub struct DhcpView {
    pub op: BootOps,
    pub htype: u8,
    pub hlen: u8,
    pub hops: u8,
    pub xid: u32,
    pub secs: u16,
    pub flags: u16,
    pub ciaddr: Seq<u8>,
    pub yiaddr: Seq<u8>,
    pub siaddr: Seq<u8>,
    pub giaddr: Seq<u8>,
    pub chaddr: Seq<u8>,
    pub sname: Seq<u8>,
    pub file: Seq<u8>,
    pub options: Seq<OptionView>,
}

impl DhcpView {
    /// The fixed-width fields have their widths. This holds of the view of
    /// every [`Dhcp`].
    pub open spec fn well_formed(self) -> bool {
        &&& self.ciaddr.len() == 4
        &&& self.yiaddr.len() == 4
        &&& self.siaddr.len() == 4
        &&& self.giaddr.len() == 4
        &&& self.sname.len() == SNAME_FIELD_LEN
        &&& self.file.len() == FILE_FIELD_LEN
    }

    /// The hardware address is `hlen` bytes long and fits its field.
    pub open spec fn chaddr_fits(self) -> bool {
        self.chaddr.len() == self.hlen && self.hlen <= CHADDR_FIELD_LEN
    }

    /// The message can be written to the wire and read back unchanged.
    pub open spec fn encodable(self) -> bool {
        &&& self.chaddr_fits()
        &&& forall|i: int| 0 <= i < self.options.len() ==> (#[trigger] self.options[i]).encodable()
    }
}

impl View for Dhcp {
    type V = DhcpView;

    open spec fn view(&self) -> DhcpView {
        DhcpView {
            op: self.op,
            htype: self.htype,
            hlen: self.hlen,
            hops: self.hops,
            xid: self.xid,
            secs: self.secs,
            flags: self.flags,
            ciaddr: self.ciaddr@,
            yiaddr: self.yiaddr@,
            siaddr: self.siaddr@,
            giaddr: self.giaddr@,
            chaddr: self.chaddr@,
            sname: self.sname@,
            file: self.file@,
            options: option_views(self.options@),
        }
    }
}

} // verus!

//! A DHCP client core: the wire codec for DHCP messages and the client
//! state machine that acquires, renews and rebinds an IPv4 lease.
//!
//! Everything here is pure computation. Sockets, clocks and sleeping live
//! with the caller, which feeds the machine events and carries out the
//! actions it returns.

pub mod codec;
pub mod entropy;
pub mod laws;
pub mod lease;
pub mod message;
pub mod offer;
pub mod options;
pub mod request;
pub mod retry;
pub mod session;
pub mod transition;
pub mod wire;

pub use codec::{decode, encode, EncodeError};
pub use entropy::Entropy;
pub use lease::{compute_timers, DeadlineKind, Lease, LeaseTimers};
pub use message::{BootOps, Dhcp, DhcpMessage, DhcpOptionTlv, DhcpView, OptionView};
pub use message::{DHCP_OPTIONS_END, DHCP_OPTION_PADD, MAGIC_COOKIE};
pub use offer::{offer_of, select_best, Offer};
pub use session::{client_init, Session};
pub use transition::{Action, Destination, Event, ProbeResult, State};
pub use wire::DecodeError;

//! The client state machine as a function: from a session, an event and the
//! time, to the next session and the action to carry out.
//!
//! The machine never waits and never sends. Its caller waits for a datagram
//! until the session's next deadline, hands over what happened as an
//! [`Event`], and carries out the [`Action`] that comes back.

use crate::entropy::{next_xid_spec, Entropy};
use crate::lease::{timers_spec, DeadlineKind, Lease};
use crate::message::{BootOps, Dhcp, DhcpMessage, DhcpView, CHADDR_FIELD_LEN};
use crate::offer::{best_index, offer_of_spec, Offer};
use crate::request::{
    decline_view, discover_view, release_view, request_offer_view, request_reboot_view,
    request_renew_view,
};
use crate::retry::{deadline_after, init_delay_spec, wait_spec, MAX_ATTEMPTS};
use vstd::prelude::*;

verus! {

/// The most offers that a session keeps from one collection window.
pub const MAX_OFFERS: usize = 16;

/// Where the client stands in the protocol.
#[derive(Clone, Copy, Debug, PartialEq, Eq, Structural)]
pub enum State {
    Init,
    InitReboot,
    Rebooting,
    Selecting,
    Requesting,
    Bound,
    Renewing,
    Rebinding,
}

/// What a probe of the local segment found out about an address.
#[derive(Clone, Copy, Debug, PartialEq, Eq, Structural)]
pub enum ProbeResult {
    Free,
    InUse,
}

/// Where a message goes.
#[derive(Clone, Copy, Debug, PartialEq, Eq)]
pub enum Destination {
    /// To 255.255.255.255.
    Broadcast,
    /// To one server.
    Unicast([u8; 4]),
}

/// What happened since the last step.
#[derive(Clone, Debug, PartialEq, Eq)]
pub enum Event {
    /// The wait ended with no datagram.
    Timer,
    /// A datagram came and was decoded.
    Received(Dhcp),
    /// The probe that the machine asked for has ended.
    Probed(ProbeResult),
}

/// What an [`Event`] holds, as plain mathematical values.
pub enum EventView {
    Timer,
    Received(DhcpView),
    Probed(ProbeResult),
}

impl View for Event {
    type V = EventView;

    open spec fn view(&self) -> EventView {
        match *self {
            Event::Timer => EventView::Timer,
            Event::Received(message) => EventView::Received(message@),
            Event::Probed(result) => EventView::Probed(result),
        }
    }
}

/// What the caller has to do after a step.
#[derive(Clone, Debug, PartialEq, Eq)]
pub enum Action {
    /// Nothing.
    Idle,
    /// Encode the message and send it to the server port of `to`.
    Send { message: Dhcp, to: Destination },
    /// Find out whether the address is in use, and report with
    /// [`Event::Probed`].
    Probe { address: [u8; 4] },
}

/// What an [`Action`] holds, as plain mathematical values.
pub enum ActionView {
    Idle,
    Send { message: DhcpView, to: Destination },
    Probe { address: [u8; 4] },
}

impl View for Action {
    type V = ActionView;

    open spec fn view(&self) -> ActionView {
        match *self {
            Action::Idle => ActionView::Idle,
            Action::Send { message, to } => ActionView::Send { message: message@, to },
            Action::Probe { address } => ActionView::Probe { address },
        }
    }
}

/// What a session holds, as plain mathematical values.
pub struct SessionView {
    /// The state of the protocol.
    pub state: State,
    /// The id of the transaction under way.
    pub xid: u32,
    /// The hardware address of the client.
    pub chaddr: Seq<u8>,
    /// The lease in use: held in `Bound`, `Renewing` and `Rebinding`.
    pub lease: Option<Lease>,
    /// The terms being asked for: in `Requesting` the offer that was taken,
    /// in `InitReboot` and `Rebooting` the address that is remembered.
    pub candidate: Option<Offer>,
    /// The lease that was granted and waits for the probe of its address.
    pub pending: Option<Lease>,
    /// The offers that were collected and not tried yet, in order of arrival.
    pub offers: Seq<Offer>,
    /// How many times the current message was sent again.
    pub attempts: u32,
    /// When the current wait ends, in the states that no lease governs.
    pub deadline: u64,
    /// How many times in a row the client went back to `Init`.
    pub restarts: u32,
}

impl SessionView {
    /// The state is one in which the client holds a lease.
    pub open spec fn holds_lease(self) -> bool {
        self.state == State::Bound || self.state == State::Renewing || self.state
            == State::Rebinding
    }

    /// The state is one in which the client asks for one address.
    pub open spec fn asks(self) -> bool {
        self.state == State::Requesting || self.state == State::InitReboot || self.state
            == State::Rebooting
    }

    /// What holds of every session: the hardware address fits its field;
    /// a lease is held in exactly the states that need one, and its timers
    /// are in order; a candidate is held in exactly the states that ask for
    /// an address; a probe is awaited only in `Requesting`; and the counts
    /// stay under their bounds.
    pub open spec fn well_formed(self) -> bool {
        &&& self.chaddr.len() <= CHADDR_FIELD_LEN
        &&& self.offers.len() <= MAX_OFFERS
        &&& self.attempts < MAX_ATTEMPTS
        &&& self.holds_lease() <==> self.lease is Some
        &&& self.asks() <==> self.candidate is Some
        &&& self.pending is Some ==> self.state == State::Requesting
        &&& self.lease matches Some(lease) ==> lease.well_formed()
        &&& self.pending matches Some(lease) ==> lease.well_formed()
    }

    /// The wait from `now` to the moment at which a [`Event::Timer`] next
    /// takes effect: in `Bound` to T1, in `Renewing` to T2, in `Rebinding`
    /// to the end of the lease, and in the other states to the end of the
    /// current timeout. Zero once that moment has come.
    pub open spec fn time_until_deadline(self, now: u64) -> int {
        match (self.lease, self.state) {
            (Some(lease), State::Bound) => lease.spec_time_until(DeadlineKind::T1, now),
            (Some(lease), State::Renewing) => lease.spec_time_until(DeadlineKind::T2, now),
            (Some(lease), State::Rebinding) => lease.spec_time_until(DeadlineKind::Expiry, now),
            _ => if now < self.deadline {
                self.deadline - now
            } else {
                0
            },
        }
    }
}

/// The lease that a server grants with the terms `offer`, obtained at `now`.
pub open spec fn grant_spec(offer: Offer, now: u64) -> Lease {
    let timers = timers_spec(offer.lease_secs, offer.t1_secs, offer.t2_secs);
    Lease {
        address: offer.address,
        server: offer.server,
        duration_ms: timers.expiry_ms,
        t1_ms: timers.t1_ms,
        t2_ms: timers.t2_ms,
        obtained_ms: now,
    }
}

/// The kind of a message that is an answer to the session's transaction;
/// `None` for a message with another transaction id, for one that is no
/// reply, and for one that names no kind.
pub open spec fn reply_kind(s: SessionView, m: DhcpView) -> Option<DhcpMessage> {
    if m.xid == s.xid && m.op == BootOps::BOOTPREPLY {
        m.message_type()
    } else {
        None
    }
}

/// One more restart, counted up to the largest count there is.
pub open spec fn one_more(restarts: u32) -> u32 {
    if restarts < u32::MAX {
        (restarts + 1) as u32
    } else {
        restarts
    }
}

/// Back to `Init`: the lease, the candidate and the offers are dropped, and
/// the next DISCOVER is due after the delay that was drawn.
pub open spec fn restart(s: SessionView, now: u64, entropy: Entropy) -> SessionView {
    SessionView {
        state: State::Init,
        lease: None,
        candidate: None,
        pending: None,
        offers: Seq::empty(),
        attempts: 0,
        deadline: deadline_after(now, init_delay_spec(entropy.delay_ms) as nat),
        restarts: one_more(s.restarts),
        ..s
    }
}

/// The candidate is given up: back to `Selecting` to take the next offer at
/// once where one is left, else back to `Init`.
pub open spec fn give_up_candidate(s: SessionView, now: u64, entropy: Entropy) -> SessionView {
    if s.offers.len() > 0 {
        SessionView {
            state: State::Selecting,
            lease: None,
            candidate: None,
            pending: None,
            attempts: 0,
            deadline: now,
            ..s
        }
    } else {
        restart(s, now, entropy)
    }
}

/// A lease is committed: the client is `Bound`.
pub open spec fn bind(s: SessionView, lease: Lease) -> SessionView {
    SessionView {
        state: State::Bound,
        lease: Some(lease),
        candidate: None,
        pending: None,
        offers: Seq::empty(),
        attempts: 0,
        restarts: 0,
        ..s
    }
}

/// The same message is due again: one more attempt, with the next timeout.
pub open spec fn retry(s: SessionView, now: u64, entropy: Entropy) -> SessionView {
    SessionView {
        attempts: (s.attempts + 1) as u32,
        deadline: deadline_after(now, wait_spec((s.attempts + 1) as nat, entropy.jitter_ms)),
        ..s
    }
}

/// `Init`: when the delay is over, a new transaction id is taken and
/// DISCOVER is broadcast.
pub open spec fn init_step(s: SessionView, e: EventView, now: u64, entropy: Entropy) -> (
    SessionView,
    ActionView,
) {
    if e is Timer && now >= s.deadline {
        let xid = next_xid_spec(s.xid, entropy.xid);
        (
            SessionView {
                state: State::Selecting,
                xid,
                attempts: 0,
                deadline: deadline_after(now, wait_spec(0, entropy.jitter_ms)),
                ..s
            },
            ActionView::Send { message: discover_view(xid, s.chaddr), to: Destination::Broadcast },
        )
    } else {
        (s, ActionView::Idle)
    }
}

/// `InitReboot`: REQUEST for the remembered address is broadcast.
pub open spec fn init_reboot_step(s: SessionView, e: EventView, now: u64, entropy: Entropy) -> (
    SessionView,
    ActionView,
) {
    match s.candidate {
        Some(candidate) => if e is Timer && now >= s.deadline {
            (
                SessionView {
                    state: State::Rebooting,
                    attempts: 0,
                    deadline: deadline_after(now, wait_spec(0, entropy.jitter_ms)),
                    ..s
                },
                ActionView::Send {
                    message: request_reboot_view(s.xid, s.chaddr, candidate.address),
                    to: Destination::Broadcast,
                },
            )
        } else {
            (s, ActionView::Idle)
        },
        None => (restart(s, now, entropy), ActionView::Idle),
    }
}

/// `Rebooting`: ACK commits the lease; NAK or the end of the timeout sends
/// the client back to `Init`.
pub open spec fn rebooting_step(s: SessionView, e: EventView, now: u64, entropy: Entropy) -> (
    SessionView,
    ActionView,
) {
    match e {
        EventView::Received(m) => match reply_kind(s, m) {
            Some(DhcpMessage::Ack) => match offer_of_spec(m) {
                Some(terms) => (bind(s, grant_spec(terms, now)), ActionView::Idle),
                None => (s, ActionView::Idle),
            },
            Some(DhcpMessage::Nack) => (restart(s, now, entropy), ActionView::Idle),
            _ => (s, ActionView::Idle),
        },
        EventView::Timer => if now >= s.deadline {
            (restart(s, now, entropy), ActionView::Idle)
        } else {
            (s, ActionView::Idle)
        },
        EventView::Probed(_) => (s, ActionView::Idle),
    }
}

/// `Selecting`: offers are collected while the window is open and there is
/// room. When the window ends, the best offer is taken and REQUEST is
/// broadcast for it; with no offer, DISCOVER is sent again, and after the
/// last attempt the client goes back to `Init`.
pub open spec fn select_step(s: SessionView, e: EventView, now: u64, entropy: Entropy) -> (
    SessionView,
    ActionView,
) {
    match e {
        EventView::Received(m) => match (reply_kind(s, m), offer_of_spec(m)) {
            (Some(DhcpMessage::Offer), Some(offer)) => if now < s.deadline && s.offers.len()
                < MAX_OFFERS {
                (SessionView { offers: s.offers.push(offer), ..s }, ActionView::Idle)
            } else {
                (s, ActionView::Idle)
            },
            _ => (s, ActionView::Idle),
        },
        EventView::Timer => if now < s.deadline {
            (s, ActionView::Idle)
        } else if s.offers.len() > 0 {
            let best = best_index(s.offers);
            let candidate = s.offers[best];
            (
                SessionView {
                    state: State::Requesting,
                    candidate: Some(candidate),
                    pending: None,
                    offers: s.offers.remove(best),
                    attempts: 0,
                    deadline: deadline_after(now, wait_spec(0, entropy.jitter_ms)),
                    ..s
                },
                ActionView::Send {
                    message: request_offer_view(
                        s.xid,
                        s.chaddr,
                        candidate.address,
                        candidate.server,
                    ),
                    to: Destination::Broadcast,
                },
            )
        } else if s.attempts + 1 < MAX_ATTEMPTS {
            (
                retry(s, now, entropy),
                ActionView::Send {
                    message: discover_view(s.xid, s.chaddr),
                    to: Destination::Broadcast,
                },
            )
        } else {
            (restart(s, now, entropy), ActionView::Idle)
        },
        EventView::Probed(_) => (s, ActionView::Idle),
    }
}

/// `Requesting`, while the address of a granted lease is being probed: a
/// free address commits the lease; one in use is declined, and never
/// committed. Nothing else is heard until the probe has ended.
pub open spec fn probing_step(
    s: SessionView,
    pending: Lease,
    e: EventView,
    now: u64,
    entropy: Entropy,
) -> (SessionView, ActionView) {
    match e {
        EventView::Probed(ProbeResult::Free) => (bind(s, pending), ActionView::Idle),
        EventView::Probed(ProbeResult::InUse) => (
            give_up_candidate(s, now, entropy),
            ActionView::Send {
                message: decline_view(s.xid, s.chaddr, pending.address, pending.server),
                to: Destination::Broadcast,
            },
        ),
        _ => (s, ActionView::Idle),
    }
}

/// `Requesting`: ACK has the granted address probed; NAK sends the client
/// back to `Init`; at the end of a timeout REQUEST is sent again, and after
/// the last attempt the candidate is given up.
pub open spec fn request_step(s: SessionView, e: EventView, now: u64, entropy: Entropy) -> (
    SessionView,
    ActionView,
) {
    match (s.candidate, s.pending) {
        (None, _) => (restart(s, now, entropy), ActionView::Idle),
        (Some(_), Some(pending)) => probing_step(s, pending, e, now, entropy),
        (Some(candidate), None) => match e {
            EventView::Received(m) => match reply_kind(s, m) {
                Some(DhcpMessage::Ack) => match offer_of_spec(m) {
                    Some(terms) => (
                        SessionView { pending: Some(grant_spec(terms, now)), ..s },
                        ActionView::Probe { address: terms.address },
                    ),
                    None => (s, ActionView::Idle),
                },
                Some(DhcpMessage::Nack) => (restart(s, now, entropy), ActionView::Idle),
                _ => (s, ActionView::Idle),
            },
            EventView::Timer => if now < s.deadline {
                (s, ActionView::Idle)
            } else if s.attempts + 1 < MAX_ATTEMPTS {
                (
                    retry(s, now, entropy),
                    ActionView::Send {
                        message: request_offer_view(
                            s.xid,
                            s.chaddr,
                            candidate.address,
                            candidate.server,
                        ),
                        to: Destination::Broadcast,
                    },
                )
            } else {
                (give_up_candidate(s, now, entropy), ActionView::Idle)
            },
            EventView::Probed(_) => (s, ActionView::Idle),
        },
    }
}

/// What an answer does to a client that is renewing or rebinding: ACK
/// commits the renewed lease, NAK sends the client back to `Init`.
pub open spec fn renewal_reply(s: SessionView, m: DhcpView, now: u64, entropy: Entropy) -> (
    SessionView,
    ActionView,
) {
    match reply_kind(s, m) {
        Some(DhcpMessage::Ack) => match offer_of_spec(m) {
            Some(terms) => (bind(s, grant_spec(terms, now)), ActionView::Idle),
            None => (s, ActionView::Idle),
        },
        Some(DhcpMessage::Nack) => (restart(s, now, entropy), ActionView::Idle),
        _ => (s, ActionView::Idle),
    }
}

/// `Bound`: when T1 is reached, REQUEST goes to the server of the lease
/// alone. Messages are not heard.
pub open spec fn bind_step(s: SessionView, e: EventView, now: u64, entropy: Entropy) -> (
    SessionView,
    ActionView,
) {
    match s.lease {
        Some(lease) => if e is Timer && lease.spec_deadline_reached(now) is Some {
            (
                SessionView { state: State::Renewing, ..s },
                ActionView::Send {
                    message: request_renew_view(s.xid, s.chaddr, lease.address),
                    to: Destination::Unicast(lease.server),
                },
            )
        } else {
            (s, ActionView::Idle)
        },
        None => (restart(s, now, entropy), ActionView::Idle),
    }
}

/// `Renewing`: an answer renews or ends the lease; when T2 is reached with
/// no answer, REQUEST is broadcast.
pub open spec fn renew_step(s: SessionView, e: EventView, now: u64, entropy: Entropy) -> (
    SessionView,
    ActionView,
) {
    match s.lease {
        Some(lease) => match e {
            EventView::Received(m) => renewal_reply(s, m, now, entropy),
            EventView::Timer => if lease.spec_deadline_reached(now) == Some(DeadlineKind::T2)
                || lease.spec_deadline_reached(now) == Some(DeadlineKind::Expiry) {
                (
                    SessionView { state: State::Rebinding, ..s },
                    ActionView::Send {
                        message: request_renew_view(s.xid, s.chaddr, lease.address),
                        to: Destination::Broadcast,
                    },
                )
            } else {
                (s, ActionView::Idle)
            },
            EventView::Probed(_) => (s, ActionView::Idle),
        },
        None => (restart(s, now, entropy), ActionView::Idle),
    }
}

/// `Rebinding`: an answer renews or ends the lease; when the lease ends
/// with no answer, the client goes back to `Init`.
pub open spec fn rebind_step(s: SessionView, e: EventView, now: u64, entropy: Entropy) -> (
    SessionView,
    ActionView,
) {
    match s.lease {
        Some(lease) => match e {
            EventView::Received(m) => renewal_reply(s, m, now, entropy),
            EventView::Timer => if lease.spec_deadline_reached(now) == Some(
                DeadlineKind::Expiry,
            ) {
                (restart(s, now, entropy), ActionView::Idle)
            } else {
                (s, ActionView::Idle)
            },
            EventView::Probed(_) => (s, ActionView::Idle),
        },
        None => (restart(s, now, entropy), ActionView::Idle),
    }
}

/// Giving the lease up: a client that holds one tells its server so and goes
/// back to `Init`; a client that holds none does nothing.
pub open spec fn release_spec(s: SessionView, now: u64, entropy: Entropy) -> (
    SessionView,
    ActionView,
) {
    match s.lease {
        Some(lease) => (
            restart(s, now, entropy),
            ActionView::Send {
                message: release_view(s.xid, s.chaddr, lease.address, lease.server),
                to: Destination::Unicast(lease.server),
            },
        ),
        None => (s, ActionView::Idle),
    }
}

/// One step of the machine: the session after the event, and the action
/// that the caller has to carry out.
pub open spec fn step_spec(s: SessionView, e: EventView, now: u64, entropy: Entropy) -> (
    SessionView,
    ActionView,
) {
    match s.state {
        State::Init => init_step(s, e, now, entropy),
        State::InitReboot => init_reboot_step(s, e, now, entropy),
        State::Rebooting => rebooting_step(s, e, now, entropy),
        State::Selecting => select_step(s, e, now, entropy),
        State::Requesting => request_step(s, e, now, entropy),
        State::Bound => bind_step(s, e, now, entropy),
        State::Renewing => renew_step(s, e, now, entropy),
        State::Rebinding => rebind_step(s, e, now, entropy),
    }
}

} // verus!

//! The session of a client, and the step that moves it.

use crate::entropy::{next_xid, Entropy};
use crate::laws::lemma_granted_lease_is_well_formed;
use crate::lease::{compute_timers, DeadlineKind, Lease};
use crate::message::{BootOps, Dhcp, DhcpMessage, CHADDR_FIELD_LEN};
use crate::offer::{offer_of, select_best, Offer};
use crate::request::{build_message, client_message, BROADCAST_FLAG, UNSPECIFIED};
use crate::retry::{
    deadline_after, deadline_from, init_delay, init_delay_spec, retransmit_wait, MAX_ATTEMPTS,
};
use crate::transition::{
    bind, give_up_candidate, grant_spec, release_spec, renewal_reply, reply_kind, restart, retry,
    step_spec, Action, ActionView, Destination, Event, ProbeResult, SessionView, State,
    MAX_OFFERS,
};
use vstd::prelude::*;
use vstd::slice::slice_to_vec;

verus! {

/// The part of a session that changes as one.
#[derive(Clone, Copy, Debug, PartialEq, Eq)]
struct Progress {
    state: State,
    xid: u32,
    lease: Option<Lease>,
    candidate: Option<Offer>,
    pending: Option<Lease>,
    attempts: u32,
    deadline: u64,
    restarts: u32,
}

/// What a client knows between two steps: its state, the transaction under
/// way, its hardware address, its lease, the offers it has collected and
/// its timeouts.
#[derive(Debug, PartialEq, Eq)]
pub struct Session {
    chaddr: Vec<u8>,
    offers: Vec<Offer>,
    progress: Progress,
}

impl View for Session {
    type V = SessionView;

    closed spec fn view(&self) -> SessionView {
        SessionView {
            state: self.progress.state,
            xid: self.progress.xid,
            chaddr: self.chaddr@,
            lease: self.progress.lease,
            candidate: self.progress.candidate,
            pending: self.progress.pending,
            offers: self.offers@,
            attempts: self.progress.attempts,
            deadline: self.progress.deadline,
            restarts: self.progress.restarts,
        }
    }
}

impl Clone for Session {
    fn clone(&self) -> (copy: Session)
        ensures
            copy@ == self@,
    {
        proof {
            use_type_invariant(self);
        }
        Session {
            chaddr: slice_to_vec(self.chaddr.as_slice()),
            offers: slice_to_vec(self.offers.as_slice()),
            progress: self.progress,
        }
    }
}

/// The session of a client that starts without a lease: in `Init`, with the
/// transaction id that was drawn, and with its first DISCOVER due after the
/// delay that was drawn.
pub open spec fn fresh_session(chaddr: Seq<u8>, now: u64, entropy: Entropy) -> SessionView {
    SessionView {
        state: State::Init,
        xid: entropy.xid,
        chaddr,
        lease: None,
        candidate: None,
        pending: None,
        offers: Seq::empty(),
        attempts: 0,
        deadline: deadline_after(now, init_delay_spec(entropy.delay_ms) as nat),
        restarts: 0,
    }
}

/// The session of a client that starts with an address it remembers: in
/// `InitReboot`, with its REQUEST due at once.
pub open spec fn rebooted_session(
    chaddr: Seq<u8>,
    address: [u8; 4],
    now: u64,
    entropy: Entropy,
) -> SessionView {
    SessionView {
        state: State::InitReboot,
        xid: entropy.xid,
        chaddr,
        lease: None,
        candidate: Some(
            Offer { address, server: UNSPECIFIED, lease_secs: 0, t1_secs: None, t2_secs: None },
        ),
        pending: None,
        offers: Seq::empty(),
        attempts: 0,
        deadline: now,
        restarts: 0,
    }
}

/// Builds the lease that a server grants with the terms `terms`.
fn grant(terms: Offer, now: u64) -> (lease: Lease)
    requires
        terms.lease_secs > 0,
    ensures
        lease == grant_spec(terms, now),
        lease.well_formed(),
{
    let timers = compute_timers(terms.lease_secs, terms.t1_secs, terms.t2_secs);
    Lease::new(terms.address, terms.server, timers, now)
}

impl Session {
    #[verifier::type_invariant]
    spec fn is_consistent(self) -> bool {
        self@.well_formed()
    }

    /// Starts a session without a lease. `None` where the hardware address
    /// is longer than the 16 bytes of its field.
    pub fn start(chaddr: Vec<u8>, now: u64, entropy: Entropy) -> (session: Option<Session>)
        ensures
            chaddr@.len() > CHADDR_FIELD_LEN <==> session is None,
            session matches Some(s) ==> s@ == fresh_session(chaddr@, now, entropy)
                && s@.well_formed(),
    {
        if chaddr.len() > CHADDR_FIELD_LEN {
            return None;
        }
        let progress = Progress {
            state: State::Init,
            xid: entropy.xid,
            lease: None,
            candidate: None,
            pending: None,
            attempts: 0,
            deadline: deadline_from(now, init_delay(entropy.delay_ms)),
            restarts: 0,
        };
        Some(Session { chaddr, offers: Vec::new(), progress })
    }

    /// Starts a session that first asks for the address it had before.
    /// `None` where the hardware address is longer than the 16 bytes of its
    /// field.
    pub fn reboot(chaddr: Vec<u8>, address: [u8; 4], now: u64, entropy: Entropy) -> (session:
        Option<Session>)
        ensures
            chaddr@.len() > CHADDR_FIELD_LEN <==> session is None,
            session matches Some(s) ==> s@ == rebooted_session(chaddr@, address, now, entropy)
                && s@.well_formed(),
    {
        if chaddr.len() > CHADDR_FIELD_LEN {
            return None;
        }
        let progress = Progress {
            state: State::InitReboot,
            xid: entropy.xid,
            lease: None,
            candidate: Some(
                Offer { address, server: UNSPECIFIED, lease_secs: 0, t1_secs: None, t2_secs: None },
            ),
            pending: None,
            attempts: 0,
            deadline: now,
            restarts: 0,
        };
        Some(Session { chaddr, offers: Vec::new(), progress })
    }

    /// The state of the protocol.
    pub fn state(&self) -> (state: State)
        ensures
            state == self@.state,
    {
        self.progress.state
    }

    /// The id of the transaction under way.
    pub fn xid(&self) -> (xid: u32)
        ensures
            xid == self@.xid,
    {
        self.progress.xid
    }

    /// The lease in use, if the client holds one.
    pub fn lease(&self) -> (lease: Option<Lease>)
        ensures
            lease == self@.lease,
            lease matches Some(l) ==> l.well_formed(),
    {
        proof {
            use_type_invariant(self);
        }
        self.progress.lease
    }

    /// The terms that the client is asking for, if it asks for any.
    pub fn candidate(&self) -> (candidate: Option<Offer>)
        ensures
            candidate == self@.candidate,
    {
        self.progress.candidate
    }

    /// Whether the machine waits for the result of a probe.
    pub fn is_probing(&self) -> (probing: bool)
        ensures
            probing == self@.pending is Some,
    {
        self.progress.pending.is_some()
    }

    /// How many offers wait to be tried.
    pub fn offer_count(&self) -> (count: usize)
        ensures
            count == self@.offers.len(),
            count <= MAX_OFFERS,
    {
        proof {
            use_type_invariant(self);
        }
        self.offers.len()
    }

    /// How many times the current message was sent again.
    pub fn attempts(&self) -> (attempts: u32)
        ensures
            attempts == self@.attempts,
            attempts < MAX_ATTEMPTS,
    {
        proof {
            use_type_invariant(self);
        }
        self.progress.attempts
    }

    /// When the current timeout ends.
    pub fn deadline(&self) -> (deadline: u64)
        ensures
            deadline == self@.deadline,
    {
        self.progress.deadline
    }

    /// How many times in a row the client went back to `Init` without
    /// getting a lease in between.
    pub fn restarts(&self) -> (restarts: u32)
        ensures
            restarts == self@.restarts,
    {
        self.progress.restarts
    }

    /// How long the caller may wait for a datagram before it reports
    /// [`Event::Timer`].
    pub fn time_until_deadline(&self, now: u64) -> (wait: u64)
        ensures
            wait == self@.time_until_deadline(now),
    {
        match (self.progress.lease, self.progress.state) {
            (Some(lease), State::Bound) => lease.time_until(DeadlineKind::T1, now),
            (Some(lease), State::Renewing) => lease.time_until(DeadlineKind::T2, now),
            (Some(lease), State::Rebinding) => lease.time_until(DeadlineKind::Expiry, now),
            _ => if now < self.progress.deadline {
                self.progress.deadline - now
            } else {
                0
            },
        }
    }

    /// The kind of a message that answers the session's transaction.
    fn reply_kind(&self, message: &Dhcp) -> (kind: Option<DhcpMessage>)
        ensures
            kind == reply_kind(self@, message@),
    {
        if message.xid != self.progress.xid {
            return None;
        }
        match message.op {
            BootOps::BOOTPREPLY => message.message_type(),
            BootOps::BOOTPREQUEST => None,
        }
    }

    /// Hands out the collected offers and leaves none in the session.
    fn take_offers(&mut self) -> (offers: Vec<Offer>)
        ensures
            offers@ == old(self)@.offers,
            final(self)@ == (SessionView { offers: Seq::empty(), ..old(self)@ }),
    {
        proof {
            use_type_invariant(&*self);
        }
        let mut offers: Vec<Offer> = Vec::new();
        std::mem::swap(&mut self.offers, &mut offers);
        offers
    }

    /// Goes back to `Init`, with the next DISCOVER due after the delay given.
    fn restart(&mut self, now: u64, entropy: Entropy)
        ensures
            final(self)@ == restart(old(self)@, now, entropy),
    {
        proof {
            use_type_invariant(&*self);
        }
        let restarts = if self.progress.restarts < u32::MAX {
            self.progress.restarts + 1
        } else {
            self.progress.restarts
        };
        self.progress = Progress {
            state: State::Init,
            xid: self.progress.xid,
            lease: None,
            candidate: None,
            pending: None,
            attempts: 0,
            deadline: deadline_from(now, init_delay(entropy.delay_ms)),
            restarts,
        };
        self.offers = Vec::new();
    }

    /// Drops the candidate: on to the next offer, or back to `Init`.
    fn give_up_candidate(&mut self, now: u64, entropy: Entropy)
        ensures
            final(self)@ == give_up_candidate(old(self)@, now, entropy),
    {
        proof {
            use_type_invariant(&*self);
        }
        if self.offers.len() > 0 {
            self.progress = Progress {
                state: State::Selecting,
                lease: None,
                candidate: None,
                pending: None,
                attempts: 0,
                deadline: now,
                ..self.progress
            };
        } else {
            self.restart(now, entropy);
        }
    }

    /// Commits a lease.
    fn bind(&mut self, lease: Lease)
        requires
            lease.well_formed(),
        ensures
            final(self)@ == bind(old(self)@, lease),
    {
        proof {
            use_type_invariant(&*self);
        }
        self.progress = Progress {
            state: State::Bound,
            xid: self.progress.xid,
            lease: Some(lease),
            candidate: None,
            pending: None,
            attempts: 0,
            deadline: self.progress.deadline,
            restarts: 0,
        };
        self.offers = Vec::new();
    }

    /// Counts one more attempt and sets its timeout.
    fn retry(&mut self, now: u64, entropy: Entropy)
        requires
            old(self)@.attempts + 1 < MAX_ATTEMPTS,
        ensures
            final(self)@ == retry(old(self)@, now, entropy),
    {
        proof {
            use_type_invariant(&*self);
        }
        let attempts = self.progress.attempts + 1;
        self.progress = Progress {
            attempts,
            deadline: deadline_from(now, retransmit_wait(attempts, entropy.jitter_ms)),
            ..self.progress
        };
    }

    /// The action that sends a message of this client.
    fn send(&self, kind: DhcpMessage, xid: u32, flags: u16, ciaddr: [u8; 4], requested: Option<
        [u8; 4],
    >, server: Option<[u8; 4]>, to: Destination) -> (action: Action)
        ensures
            action@ == (ActionView::Send {
                message: client_message(
                    kind,
                    xid,
                    self@.chaddr,
                    flags,
                    ciaddr,
                    requested,
                    server,
                ),
                to,
            }),
    {
        proof {
            use_type_invariant(self);
        }
        Action::Send {
            message: build_message(kind, xid, &self.chaddr, flags, ciaddr, requested, server),
            to,
        }
    }

    /// `Init`: sends the DISCOVER of a new cycle once the delay is over.
    fn dhcp_init(&mut self, event: Event, now: u64, entropy: Entropy) -> (action: Action)
        requires
            old(self)@.state == State::Init,
        ensures
            (final(self)@, action@) == step_spec(old(self)@, event@, now, entropy),
    {
        proof {
            use_type_invariant(&*self);
        }
        match event {
            Event::Timer => {
                if now >= self.progress.deadline {
                    let xid = next_xid(self.progress.xid, entropy.xid);
                    self.progress = Progress {
                        state: State::Selecting,
                        xid,
                        attempts: 0,
                        deadline: deadline_from(now, retransmit_wait(0, entropy.jitter_ms)),
                        ..self.progress
                    };
                    self.send(
                        DhcpMessage::Discover,
                        xid,
                        BROADCAST_FLAG,
                        UNSPECIFIED,
                        None,
                        None,
                        Destination::Broadcast,
                    )
                } else {
                    Action::Idle
                }
            },
            _ => Action::Idle,
        }
    }

    /// `InitReboot`: asks for the remembered address.
    fn dhcp_init_reboot(&mut self, event: Event, now: u64, entropy: Entropy) -> (action: Action)
        requires
            old(self)@.state == State::InitReboot,
        ensures
            (final(self)@, action@) == step_spec(old(self)@, event@, now, entropy),
    {
        proof {
            use_type_invariant(&*self);
        }
        let candidate = match self.progress.candidate {
            Some(candidate) => candidate,
            None => {
                self.restart(now, entropy);
                return Action::Idle;
            },
        };
        match event {
            Event::Timer => {
                if now >= self.progress.deadline {
                    self.progress = Progress {
                        state: State::Rebooting,
                        attempts: 0,
                        deadline: deadline_from(now, retransmit_wait(0, entropy.jitter_ms)),
                        ..self.progress
                    };
                    self.send(
                        DhcpMessage::Request,
                        self.progress.xid,
                        BROADCAST_FLAG,
                        UNSPECIFIED,
                        Some(candidate.address),
                        None,
                        Destination::Broadcast,
                    )
                } else {
                    Action::Idle
                }
            },
            _ => Action::Idle,
        }
    }

    /// `Rebooting`: waits for the answer to the REQUEST of a reboot.
    fn dhcp_rebooting(&mut self, event: Event, now: u64, entropy: Entropy) -> (action: Action)
        requires
            old(self)@.state == State::Rebooting,
        ensures
            (final(self)@, action@) == step_spec(old(self)@, event@, now, entropy),
    {
        proof {
            use_type_invariant(&*self);
        }
        match event {
            Event::Received(message) => {
                self.renewal_reply(&message, now, entropy);
            },
            Event::Timer => {
                if now >= self.progress.deadline {
                    self.restart(now, entropy);
                }
            },
            Event::Probed(_) => {},
        }
        Action::Idle
    }

    /// What an ACK or a NAK does where no probe follows: the lease is
    /// committed, or the client goes back to `Init`.
    fn renewal_reply(&mut self, message: &Dhcp, now: u64, entropy: Entropy)
        ensures
            (final(self)@, ActionView::Idle) == renewal_reply(old(self)@, message@, now, entropy),
    {
        match self.reply_kind(message) {
            Some(DhcpMessage::Ack) => match offer_of(message) {
                Some(terms) => {
                    proof {
                        lemma_granted_lease_is_well_formed(message@, now);
                    }
                    self.bind(grant(terms, now));
                },
                None => {},
            },
            Some(DhcpMessage::Nack) => {
                self.restart(now, entropy);
            },
            _ => {},
        }
    }

    /// `Selecting`: collects offers, and takes the best when the window ends.
    fn dhcp_select(&mut self, event: Event, now: u64, entropy: Entropy) -> (action: Action)
        requires
            old(self)@.state == State::Selecting,
        ensures
            (final(self)@, action@) == step_spec(old(self)@, event@, now, entropy),
    {
        proof {
            use_type_invariant(&*self);
        }
        match event {
            Event::Received(message) => {
                match (self.reply_kind(&message), offer_of(&message)) {
                    (Some(DhcpMessage::Offer), Some(offer)) => {
                        if now < self.progress.deadline && self.offers.len() < MAX_OFFERS {
                            let mut offers = self.take_offers();
                            offers.push(offer);
                            self.offers = offers;
                        }
                    },
                    _ => {},
                }
                Action::Idle
            },
            Event::Timer => {
                if now < self.progress.deadline {
                    return Action::Idle;
                }
                match select_best(&self.offers) {
                    Some(best) => {
                        let candidate = self.offers[best];
                        self.progress = Progress {
                            state: State::Requesting,
                            candidate: Some(candidate),
                            pending: None,
                            attempts: 0,
                            deadline: deadline_from(now, retransmit_wait(0, entropy.jitter_ms)),
                            ..self.progress
                        };
                        let mut offers = self.take_offers();
                        offers.remove(best);
                        self.offers = offers;
                        self.send(
                            DhcpMessage::Request,
                            self.progress.xid,
                            BROADCAST_FLAG,
                            UNSPECIFIED,
                            Some(candidate.address),
                            Some(candidate.server),
                            Destination::Broadcast,
                        )
                    },
                    None => {
                        if self.progress.attempts + 1 < MAX_ATTEMPTS {
                            self.retry(now, entropy);
                            self.send(
                                DhcpMessage::Discover,
                                self.progress.xid,
                                BROADCAST_FLAG,
                                UNSPECIFIED,
                                None,
                                None,
                                Destination::Broadcast,
                            )
                        } else {
                            self.restart(now, entropy);
                            Action::Idle
                        }
                    },
                }
            },
            Event::Probed(_) => Action::Idle,
        }
    }

    /// `Requesting`: waits for the answer to a REQUEST, has the granted
    /// address probed, and commits or declines it.
    fn dhcp_request(&mut self, event: Event, now: u64, entropy: Entropy) -> (action: Action)
        requires
            old(self)@.state == State::Requesting,
        ensures
            (final(self)@, action@) == step_spec(old(self)@, event@, now, entropy),
    {
        proof {
            use_type_invariant(&*self);
        }
        let candidate = match self.progress.candidate {
            Some(candidate) => candidate,
            None => {
                self.restart(now, entropy);
                return Action::Idle;
            },
        };
        match self.progress.pending {
            Some(pending) => match event {
                Event::Probed(ProbeResult::Free) => {
                    self.bind(pending);
                    Action::Idle
                },
                Event::Probed(ProbeResult::InUse) => {
                    let xid = self.progress.xid;
                    self.give_up_candidate(now, entropy);
                    self.send(
                        DhcpMessage::Decline,
                        xid,
                        0,
                        UNSPECIFIED,
                        Some(pending.address),
                        Some(pending.server),
                        Destination::Broadcast,
                    )
                },
                _ => Action::Idle,
            },
            None => match event {
                Event::Received(message) => match self.reply_kind(&message) {
                    Some(DhcpMessage::Ack) => match offer_of(&message) {
                        Some(terms) => {
                            proof {
                                lemma_granted_lease_is_well_formed(message@, now);
                            }
                            self.progress = Progress {
                                pending: Some(grant(terms, now)),
                                ..self.progress
                            };
                            Action::Probe { address: terms.address }
                        },
                        None => Action::Idle,
                    },
                    Some(DhcpMessage::Nack) => {
                        self.restart(now, entropy);
                        Action::Idle
                    },
                    _ => Action::Idle,
                },
                Event::Timer => {
                    if now < self.progress.deadline {
                        Action::Idle
                    } else if self.progress.attempts + 1 < MAX_ATTEMPTS {
                        self.retry(now, entropy);
                        self.send(
                            DhcpMessage::Request,
                            self.progress.xid,
                            BROADCAST_FLAG,
                            UNSPECIFIED,
                            Some(candidate.address),
                            Some(candidate.server),
                            Destination::Broadcast,
                        )
                    } else {
                        self.give_up_candidate(now, entropy);
                        Action::Idle
                    }
                },
                Event::Probed(_) => Action::Idle,
            },
        }
    }

    /// `Bound`: waits for T1, then asks the server of the lease to renew it.
    fn dhcp_bind(&mut self, event: Event, now: u64, entropy: Entropy) -> (action: Action)
        requires
            old(self)@.state == State::Bound,
        ensures
            (final(self)@, action@) == step_spec(old(self)@, event@, now, entropy),
    {
        proof {
            use_type_invariant(&*self);
        }
        let lease = match self.progress.lease {
            Some(lease) => lease,
            None => {
                self.restart(now, entropy);
                return Action::Idle;
            },
        };
        match event {
            Event::Timer => {
                if lease.deadline_reached(now).is_some() {
                    self.progress = Progress { state: State::Renewing, ..self.progress };
                    self.send(
                        DhcpMessage::Request,
                        self.progress.xid,
                        0,
                        lease.address,
                        None,
                        None,
                        Destination::Unicast(lease.server),
                    )
                } else {
                    Action::Idle
                }
            },
            _ => Action::Idle,
        }
    }

    /// `Renewing`: waits for the server of the lease to answer, and at T2
    /// turns to any server.
    fn dhcp_renew(&mut self, event: Event, now: u64, entropy: Entropy) -> (action: Action)
        requires
            old(self)@.state == State::Renewing,
        ensures
            (final(self)@, action@) == step_spec(old(self)@, event@, now, entropy),
    {
        proof {
            use_type_invariant(&*self);
        }
        let lease = match self.progress.lease {
            Some(lease) => lease,
            None => {
                self.restart(now, entropy);
                return Action::Idle;
            },
        };
        match event {
            Event::Received(message) => {
                self.renewal_reply(&message, now, entropy);
                Action::Idle
            },
            Event::Timer => match lease.deadline_reached(now) {
                Some(DeadlineKind::T2) | Some(DeadlineKind::Expiry) => {
                    self.progress = Progress { state: State::Rebinding, ..self.progress };
                    self.send(
                        DhcpMessage::Request,
                        self.progress.xid,
                        0,
                        lease.address,
                        None,
                        None,
                        Destination::Broadcast,
                    )
                },
                _ => Action::Idle,
            },
            Event::Probed(_) => Action::Idle,
        }
    }

    /// `Rebinding`: waits for any server to answer, and gives the lease up
    /// when it ends.
    fn dhcp_rebind(&mut self, event: Event, now: u64, entropy: Entropy) -> (action: Action)
        requires
            old(self)@.state == State::Rebinding,
        ensures
            (final(self)@, action@) == step_spec(old(self)@, event@, now, entropy),
    {
        proof {
            use_type_invariant(&*self);
        }
        let lease = match self.progress.lease {
            Some(lease) => lease,
            None => {
                self.restart(now, entropy);
                return Action::Idle;
            },
        };
        match event {
            Event::Received(message) => {
                self.renewal_reply(&message, now, entropy);
            },
            Event::Timer => match lease.deadline_reached(now) {
                Some(DeadlineKind::Expiry) => {
                    self.restart(now, entropy);
                },
                _ => {},
            },
            Event::Probed(_) => {},
        }
        Action::Idle
    }

    /// Moves the session by one event, with the random numbers given: the
    /// step is the one that [`step_spec`] describes, exactly.
    pub fn step_with(&mut self, event: Event, now: u64, entropy: Entropy) -> (action: Action)
        ensures
            (final(self)@, action@) == step_spec(old(self)@, event@, now, entropy),
            old(self)@.well_formed(),
            final(self)@.well_formed(),
    {
        proof {
            use_type_invariant(&*self);
        }
        let action = match self.progress.state {
            State::Init => self.dhcp_init(event, now, entropy),
            State::InitReboot => self.dhcp_init_reboot(event, now, entropy),
            State::Rebooting => self.dhcp_rebooting(event, now, entropy),
            State::Selecting => self.dhcp_select(event, now, entropy),
            State::Requesting => self.dhcp_request(event, now, entropy),
            State::Bound => self.dhcp_bind(event, now, entropy),
            State::Renewing => self.dhcp_renew(event, now, entropy),
            State::Rebinding => self.dhcp_rebind(event, now, entropy),
        };
        proof {
            use_type_invariant(&*self);
        }
        action
    }

    /// Gives the lease up, with the delay before the next DISCOVER given.
    /// A client that holds a lease gets the RELEASE to send to its server,
    /// and is back in `Init` without a lease.
    pub fn release_with(&mut self, now: u64, entropy: Entropy) -> (action: Action)
        ensures
            (final(self)@, action@) == release_spec(old(self)@, now, entropy),
            final(self)@.lease is None,
    {
        proof {
            use_type_invariant(&*self);
        }
        match self.progress.lease {
            Some(lease) => {
                let xid = self.progress.xid;
                self.restart(now, entropy);
                self.send(
                    DhcpMessage::Release,
                    xid,
                    0,
                    lease.address,
                    None,
                    Some(lease.server),
                    Destination::Unicast(lease.server),
                )
            },
            None => Action::Idle,
        }
    }

    /// Gives the lease up, drawing the delay before the next DISCOVER.
    pub fn release(&mut self, now: u64) -> (action: Action)
        ensures
            exists|entropy: Entropy|
                entropy.in_range() && (final(self)@, action@) == #[trigger] release_spec(
                    old(self)@,
                    now,
                    entropy,
                ),
            final(self)@.lease is None,
    {
        let entropy = Entropy::draw();
        self.release_with(now, entropy)
    }

    /// Moves the session by one event, drawing the random numbers that the
    /// step may need. Whatever was drawn, the step is one that [`step_spec`]
    /// describes, for a delay and a jitter in their ranges.
    pub fn step(&mut self, event: Event, now: u64) -> (action: Action)
        ensures
            exists|entropy: Entropy|
                entropy.in_range() && (final(self)@, action@) == #[trigger] step_spec(
                    old(self)@,
                    event@,
                    now,
                    entropy,
                ),
            final(self)@.well_formed(),
    {
        let entropy = Entropy::draw();
        self.step_with(event, now, entropy)
    }
}

/// Starts the session of a client with the given hardware address, drawing
/// its first transaction id and the delay before its first DISCOVER.
/// `None` where the hardware address is longer than the 16 bytes of its
/// field.
pub fn client_init(chaddr: Vec<u8>, now: u64) -> (session: Option<Session>)
    ensures
        chaddr@.len() > CHADDR_FIELD_LEN <==> session is None,
        session matches Some(s) ==> s@.well_formed() && exists|entropy: Entropy|
            entropy.in_range() && s@ == #[trigger] fresh_session(chaddr@, now, entropy),
{
    Session::start(chaddr, now, Entropy::draw())
}

} // verus!

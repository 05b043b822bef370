//! What holds of every step of the client state machine.

use crate::entropy::Entropy;
use crate::lease::lemma_timers_ordered;
use crate::message::{DhcpMessage, DhcpView};
use crate::offer::{lemma_best_exists, offer_of_spec, Offer};
use crate::request::{
    client_message, decline_view, discover_view, lemma_client_message, request_renew_view,
    BROADCAST_FLAG, UNSPECIFIED,
};
use crate::retry::MAX_ATTEMPTS;
use crate::transition::{
    grant_spec, release_spec, reply_kind, step_spec, ActionView, Destination, EventView,
    ProbeResult, SessionView, State,
};
use vstd::prelude::*;

verus! {

/// The lease that an OFFER or an ACK grants has its timers in order:
/// `0 < T1 < T2 < L`.
pub proof fn lemma_granted_lease_is_well_formed(m: DhcpView, now: u64)
    requires
        offer_of_spec(m) is Some,
    ensures
        offer_of_spec(m)->0.lease_secs > 0,
        grant_spec(offer_of_spec(m)->0, now).well_formed(),
        grant_spec(offer_of_spec(m)->0, now).obtained_ms == now,
{
    let terms = offer_of_spec(m)->0;
    lemma_timers_ordered(terms.lease_secs, terms.t1_secs, terms.t2_secs);
}

/// A step takes a well-formed session to a well-formed session.
pub proof fn lemma_step_keeps_well_formed(
    s: SessionView,
    e: EventView,
    now: u64,
    entropy: Entropy,
)
    requires
        s.well_formed(),
    ensures
        step_spec(s, e, now, entropy).0.well_formed(),
        step_spec(s, e, now, entropy).0.chaddr == s.chaddr,
{
    if let EventView::Received(m) = e {
        if offer_of_spec(m) is Some {
            lemma_granted_lease_is_well_formed(m, now);
        }
    }
    if s.offers.len() > 0 {
        lemma_best_exists(s.offers);
    }
}

/// A message whose transaction id is not that of the session changes
/// nothing and has nothing done, in every state.
pub proof fn lemma_foreign_xid_is_ignored(s: SessionView, m: DhcpView, now: u64, entropy: Entropy)
    requires
        s.well_formed(),
        m.xid != s.xid,
    ensures
        step_spec(s, EventView::Received(m), now, entropy) == (s, ActionView::Idle),
{
}

/// A message of a kind that the state does not wait for changes nothing:
/// anything but an OFFER while selecting, anything but an ACK or a NAK
/// while an answer to a REQUEST is awaited, and anything at all in `Init`,
/// `InitReboot` and `Bound`.
pub proof fn lemma_unexpected_kind_is_ignored(
    s: SessionView,
    m: DhcpView,
    now: u64,
    entropy: Entropy,
)
    requires
        s.well_formed(),
        match s.state {
            State::Init | State::InitReboot | State::Bound => true,
            State::Selecting => reply_kind(s, m) != Some(DhcpMessage::Offer),
            _ => reply_kind(s, m) != Some(DhcpMessage::Ack) && reply_kind(s, m) != Some(
                DhcpMessage::Nack,
            ),
        },
    ensures
        step_spec(s, EventView::Received(m), now, entropy) == (s, ActionView::Idle),
{
}

/// The transaction id changes only when `Init` sends the DISCOVER of a new
/// cycle, and then the new id is not the old one and is the id of that
/// DISCOVER.
pub proof fn lemma_xid_is_fixed_within_a_cycle(
    s: SessionView,
    e: EventView,
    now: u64,
    entropy: Entropy,
)
    requires
        s.well_formed(),
    ensures
        ({
            let (next, action) = step_spec(s, e, now, entropy);
            if s.state == State::Init && e is Timer && now >= s.deadline {
                &&& next.xid != s.xid
                &&& next.state == State::Selecting
                &&& action == ActionView::Send {
                    message: discover_view(next.xid, s.chaddr),
                    to: Destination::Broadcast,
                }
                &&& discover_view(next.xid, s.chaddr).xid == next.xid
                &&& discover_view(next.xid, s.chaddr).message_type() == Some(
                    DhcpMessage::Discover,
                )
            } else {
                next.xid == s.xid
            }
        }),
{
    if s.state == State::Init && e is Timer && now >= s.deadline {
        let next = step_spec(s, e, now, entropy).0;
        lemma_client_message(
            DhcpMessage::Discover,
            next.xid,
            s.chaddr,
            BROADCAST_FLAG,
            UNSPECIFIED,
            None,
            None,
        );
    }
}

/// A NAK that answers the session's transaction, in a state that waits for
/// an answer to a REQUEST, sends the client back to `Init` without a lease.
pub proof fn lemma_nak_restarts(s: SessionView, m: DhcpView, now: u64, entropy: Entropy)
    requires
        s.well_formed(),
        reply_kind(s, m) == Some(DhcpMessage::Nack),
        s.state == State::Requesting || s.state == State::Rebooting || s.state == State::Renewing
            || s.state == State::Rebinding,
        s.pending is None,
    ensures
        step_spec(s, EventView::Received(m), now, entropy).0.state == State::Init,
        step_spec(s, EventView::Received(m), now, entropy).0.lease is None,
        step_spec(s, EventView::Received(m), now, entropy).0.xid == s.xid,
        step_spec(s, EventView::Received(m), now, entropy).1 == ActionView::Idle,
{
}

/// An address that the probe finds in use is declined and never committed:
/// the client sends DECLINE for it and goes on without a lease, in
/// `Selecting` where another offer is left and in `Init` where none is.
pub proof fn lemma_address_in_use_is_declined(s: SessionView, now: u64, entropy: Entropy)
    requires
        s.well_formed(),
        s.state == State::Requesting,
        s.pending is Some,
    ensures
        ({
            let (next, action) = step_spec(s, EventView::Probed(ProbeResult::InUse), now, entropy);
            let pending = s.pending->0;
            &&& next.lease is None
            &&& next.pending is None
            &&& next.state == (if s.offers.len() > 0 {
                State::Selecting
            } else {
                State::Init
            })
            &&& action == ActionView::Send {
                message: decline_view(s.xid, s.chaddr, pending.address, pending.server),
                to: Destination::Broadcast,
            }
            &&& decline_view(s.xid, s.chaddr, pending.address, pending.server).message_type()
                == Some(DhcpMessage::Decline)
        }),
{
    let pending = s.pending->0;
    lemma_client_message(
        DhcpMessage::Decline,
        s.xid,
        s.chaddr,
        0,
        UNSPECIFIED,
        Some(pending.address),
        Some(pending.server),
    );
}

/// A lease is committed only by an ACK, or by a probe that found the
/// granted address free: whenever a step leaves the session with a lease
/// that it did not hold before, that lease is well formed and the client
/// is `Bound`.
pub proof fn lemma_lease_is_committed_by_ack(
    s: SessionView,
    e: EventView,
    now: u64,
    entropy: Entropy,
)
    requires
        s.well_formed(),
        step_spec(s, e, now, entropy).0.lease is Some,
        step_spec(s, e, now, entropy).0.lease != s.lease,
    ensures
        step_spec(s, e, now, entropy).0.state == State::Bound,
        step_spec(s, e, now, entropy).0.lease->0.well_formed(),
        e == EventView::Probed(ProbeResult::Free) || (e matches EventView::Received(m)
            && reply_kind(s, m) == Some(DhcpMessage::Ack)),
{
    lemma_step_keeps_well_formed(s, e, now, entropy);
}

/// When T1 is reached in `Bound`, the client asks the server of its lease,
/// and no other, to renew: REQUEST goes by unicast to the stored server
/// address, with the leased address in `ciaddr`.
pub proof fn lemma_renewal_is_unicast(s: SessionView, now: u64, entropy: Entropy)
    requires
        s.well_formed(),
        s.state == State::Bound,
        s.lease->0.spec_deadline_reached(now) is Some,
    ensures
        ({
            let (next, action) = step_spec(s, EventView::Timer, now, entropy);
            let lease = s.lease->0;
            &&& next.state == State::Renewing
            &&& next.lease == s.lease
            &&& action == ActionView::Send {
                message: request_renew_view(s.xid, s.chaddr, lease.address),
                to: Destination::Unicast(lease.server),
            }
            &&& request_renew_view(s.xid, s.chaddr, lease.address).message_type() == Some(
                DhcpMessage::Request,
            )
            &&& request_renew_view(s.xid, s.chaddr, lease.address).ciaddr == lease.address@
        }),
{
    let lease = s.lease->0;
    lemma_client_message(DhcpMessage::Request, s.xid, s.chaddr, 0, lease.address, None, None);
}

/// Giving the lease up leaves a well-formed session without a lease, and a
/// client that held one is back in `Init` with a RELEASE for its server.
pub proof fn lemma_release_ends_the_lease(s: SessionView, now: u64, entropy: Entropy)
    requires
        s.well_formed(),
    ensures
        release_spec(s, now, entropy).0.well_formed(),
        release_spec(s, now, entropy).0.lease is None,
        release_spec(s, now, entropy).0.xid == s.xid,
        s.lease matches Some(lease) ==> {
            &&& release_spec(s, now, entropy).0.state == State::Init
            &&& release_spec(s, now, entropy).1 matches ActionView::Send { message, to }
            &&& to == Destination::Unicast(lease.server)
            &&& message.message_type() == Some(DhcpMessage::Release)
            &&& message.encodable()
            &&& message.ciaddr == lease.address@
        },
{
    if let Some(lease) = s.lease {
        lemma_client_message(
            DhcpMessage::Release,
            s.xid,
            s.chaddr,
            0,
            lease.address,
            None,
            Some(lease.server),
        );
    }
}

/// Every message that the machine has sent can be encoded, and carries
/// the transaction id of the session.
pub proof fn lemma_sent_message_is_encodable(
    s: SessionView,
    e: EventView,
    now: u64,
    entropy: Entropy,
)
    requires
        s.well_formed(),
        step_spec(s, e, now, entropy).1 is Send,
    ensures
        step_spec(s, e, now, entropy).1->message.well_formed(),
        step_spec(s, e, now, entropy).1->message.encodable(),
        step_spec(s, e, now, entropy).1->message.xid == step_spec(s, e, now, entropy).0.xid,
{
    let (next, action) = step_spec(s, e, now, entropy);
    if s.offers.len() > 0 {
        lemma_best_exists(s.offers);
    }
    assert forall|
        kind: DhcpMessage,
        flags: u16,
        ciaddr: [u8; 4],
        requested: Option<[u8; 4]>,
        server: Option<[u8; 4]>,
    |
        ({
            let m = #[trigger] client_message(
                kind,
                next.xid,
                s.chaddr,
                flags,
                ciaddr,
                requested,
                server,
            );
            m.well_formed() && m.encodable() && m.xid == next.xid
        }) by {
        lemma_client_message(kind, next.xid, s.chaddr, flags, ciaddr, requested, server);
    }
}

/// While no probe is awaited, a timer event that comes when the wait to the
/// session's deadline is over always takes effect: the state changes, or
/// the message is sent again.
pub proof fn lemma_due_timer_takes_effect(s: SessionView, now: u64, entropy: Entropy)
    requires
        s.well_formed(),
        s.pending is None,
        s.time_until_deadline(now) == 0,
    ensures
        ({
            let (next, action) = step_spec(s, EventView::Timer, now, entropy);
            next.state != s.state || (next.attempts == s.attempts + 1 && action is Send)
        }),
{
}

/// A message is sent at most [`MAX_ATTEMPTS`] times: the count of attempts
/// stays under that bound, and a timeout at the last attempt ends the
/// exchange, back to `Selecting` or to `Init`.
pub proof fn lemma_attempts_are_bounded(s: SessionView, now: u64, entropy: Entropy)
    requires
        s.well_formed(),
        s.pending is None,
        s.state == State::Selecting && s.offers.len() == 0 || s.state == State::Requesting,
        now >= s.deadline,
        s.attempts + 1 == MAX_ATTEMPTS,
    ensures
        step_spec(s, EventView::Timer, now, entropy).0.attempts == 0,
        step_spec(s, EventView::Timer, now, entropy).0.state == State::Init || step_spec(
            s,
            EventView::Timer,
            now,
            entropy,
        ).0.state == State::Selecting,
        step_spec(s, EventView::Timer, now, entropy).0.state == State::Selecting ==> s.state
            == State::Requesting && s.offers.len() > 0,
{
}

} // verus!

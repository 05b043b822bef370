//! What a server offers, and which of several offers to take.

use crate::message::{Dhcp, DhcpView};
use crate::options::{
    OPTION_LEASE_TIME, OPTION_REBINDING_TIME, OPTION_RENEWAL_TIME, OPTION_SERVER_ID,
};
use vstd::prelude::*;

verus! {

/// The address that four bytes stand for.
pub open spec fn address_of(bytes: Seq<u8>) -> [u8; 4]
    recommends
        bytes.len() == 4,
{
    [bytes[0], bytes[1], bytes[2], bytes[3]]
}

/// An address is the address that its own bytes stand for.
pub proof fn lemma_address_of_view(address: [u8; 4])
    ensures
        address_of(address@) == address,
{
    assert(address_of(address@) =~= address);
}

/// The terms under which a server gives an address: in an OFFER, what it
/// proposes; in an ACK, what it grants.
#[derive(Clone, Copy, Debug, PartialEq, Eq)]
pub struct Offer {
    /// The address on offer.
    pub address: [u8; 4],
    /// The server that makes the offer.
    pub server: [u8; 4],
    /// How long the lease would last, in seconds; never zero.
    pub lease_secs: u32,
    /// The renewal time that the server asks for, in seconds.
    pub t1_secs: Option<u32>,
    /// The rebinding time that the server asks for, in seconds.
    pub t2_secs: Option<u32>,
}

/// The terms that a message states: its `yiaddr`, its server identifier and
/// its lease time, with the renewal and rebinding times where it has them.
/// A message without a server identifier, or without a lease time of more
/// than zero seconds, states none.
pub open spec fn offer_of_spec(m: DhcpView) -> Option<Offer> {
    match (m.u32_option(OPTION_LEASE_TIME), m.address_option(OPTION_SERVER_ID)) {
        (Some(lease_secs), Some(server)) => if lease_secs > 0 {
            Some(
                Offer {
                    address: address_of(m.yiaddr),
                    server: address_of(server),
                    lease_secs,
                    t1_secs: m.u32_option(OPTION_RENEWAL_TIME),
                    t2_secs: m.u32_option(OPTION_REBINDING_TIME),
                },
            )
        } else {
            None
        },
        _ => None,
    }
}

/// Reads the terms that an OFFER or an ACK states.
pub fn offer_of(message: &Dhcp) -> (offer: Option<Offer>)
    ensures
        offer == offer_of_spec(message@),
{
    let lease_secs = match message.lease_time() {
        Some(secs) => secs,
        None => {
            return None;
        },
    };
    let server = match message.server_identifier() {
        Some(server) => server,
        None => {
            return None;
        },
    };
    if lease_secs == 0 {
        return None;
    }
    proof {
        lemma_address_of_view(message.yiaddr);
        lemma_address_of_view(server);
    }
    Some(
        Offer {
            address: message.yiaddr,
            server,
            lease_secs,
            t1_secs: message.renewal_time(),
            t2_secs: message.rebinding_time(),
        },
    )
}

/// The offer at `index` is the one to take: none has a longer lease, and
/// every earlier one has a shorter lease.
pub open spec fn is_best(offers: Seq<Offer>, index: int) -> bool {
    &&& 0 <= index < offers.len()
    &&& forall|j: int| 0 <= j < offers.len() ==> (#[trigger] offers[j]).lease_secs
        <= offers[index].lease_secs
    &&& forall|j: int| 0 <= j < index ==> (#[trigger] offers[j]).lease_secs
        < offers[index].lease_secs
}

/// The place of the offer to take, in a list that is not empty.
pub open spec fn best_index(offers: Seq<Offer>) -> int {
    choose|index: int| is_best(offers, index)
}

/// Only one offer of a list is the one to take: the choice depends on the
/// list alone.
pub proof fn lemma_best_is_unique(offers: Seq<Offer>, i: int, j: int)
    requires
        is_best(offers, i),
        is_best(offers, j),
    ensures
        i == j,
{
    if i < j {
        assert(offers[i].lease_secs < offers[j].lease_secs);
        assert(offers[j].lease_secs <= offers[i].lease_secs);
    } else if j < i {
        assert(offers[j].lease_secs < offers[i].lease_secs);
        assert(offers[i].lease_secs <= offers[j].lease_secs);
    }
}

/// Every list that is not empty has an offer to take.
pub proof fn lemma_best_exists(offers: Seq<Offer>)
    requires
        offers.len() > 0,
    ensures
        is_best(offers, best_index(offers)),
    decreases offers.len(),
{
    if offers.len() == 1 {
        assert(is_best(offers, 0));
    } else {
        let front = offers.drop_last();
        lemma_best_exists(front);
        let b = best_index(front);
        let last = offers.len() - 1;
        assert forall|j: int| 0 <= j < last implies offers[j] == #[trigger] front[j] by {}
        if offers[last].lease_secs > offers[b].lease_secs {
            assert forall|j: int| 0 <= j < last implies (#[trigger] offers[j]).lease_secs
                < offers[last].lease_secs by {
                assert(front[j].lease_secs <= front[b].lease_secs);
            }
            assert(is_best(offers, last));
        } else {
            assert forall|j: int| 0 <= j < offers.len() implies (#[trigger] offers[j]).lease_secs
                <= offers[b].lease_secs by {
                if j < last {
                    assert(front[j].lease_secs <= front[b].lease_secs);
                }
            }
            assert forall|j: int| 0 <= j < b implies (#[trigger] offers[j]).lease_secs
                < offers[b].lease_secs by {
                assert(front[j].lease_secs < front[b].lease_secs);
            }
            assert(is_best(offers, b));
        }
    }
}

/// Picks the offer with the longest lease, and among those of equal length
/// the one that came first. `None` only for an empty list.
pub fn select_best(offers: &Vec<Offer>) -> (best: Option<usize>)
    ensures
        offers@.len() == 0 <==> best is None,
        best matches Some(index) ==> is_best(offers@, index as int) && index == best_index(
            offers@,
        ),
{
    if offers.len() == 0 {
        return None;
    }
    let mut best: usize = 0;
    let mut i: usize = 1;
    while i < offers.len()
        invariant
            0 <= best < i <= offers@.len(),
            is_best(offers@.take(i as int), best as int),
        decreases offers@.len() - i,
    {
        let ghost before = offers@.take(i as int);
        let ghost after = offers@.take(i + 1);
        assert forall|j: int| 0 <= j < i implies after[j] == #[trigger] before[j] by {}
        if offers[i].lease_secs > offers[best].lease_secs {
            assert forall|j: int| 0 <= j < i implies (#[trigger] after[j]).lease_secs
                < after[i as int].lease_secs by {
                assert(before[j].lease_secs <= before[best as int].lease_secs);
            }
            best = i;
        } else {
            assert forall|j: int| 0 <= j < after.len() implies (#[trigger] after[j]).lease_secs
                <= after[best as int].lease_secs by {
                if j < i {
                    assert(before[j].lease_secs <= before[best as int].lease_secs);
                }
            }
            assert forall|j: int| 0 <= j < best implies (#[trigger] after[j]).lease_secs
                < after[best as int].lease_secs by {
                assert(before[j].lease_secs < before[best as int].lease_secs);
            }
        }
        i += 1;
    }
    proof {
        assert(offers@.take(i as int) =~= offers@);
        lemma_best_is_unique(offers@, best as int, best_index(offers@));
    }
    Some(best)
}

} // verus!

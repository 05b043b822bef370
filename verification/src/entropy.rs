//! The random numbers that the client draws: a transaction id, the delay
//! before a DISCOVER, and the jitter of a timeout.

use crate::retry::{INIT_DELAY_BOUND_MS, INIT_DELAY_MIN_MS, JITTER_MS};
use rand::Rng;
use vstd::prelude::*;

verus! {

/// Calls `rand::random::<u32>()`, which draws from the generator of the
/// current thread. Nothing is claimed of the number that comes back. The
/// generator panics where the operating system gives it no seed; nothing
/// that a caller passes in decides that.
#[verifier::external_body]
fn random_u32() -> (x: u32) {
    rand::random::<u32>()
}

/// Calls `rand::Rng::gen_range` on `rand::thread_rng()` with the half-open
/// range from `low` to `high`. The claim is that of its documentation: the
/// number lies in the range. It panics on an empty range, which the
/// precondition leaves out, and where the operating system gives the
/// generator no seed.
#[verifier::external_body]
fn random_in_range(low: u64, high: u64) -> (x: u64)
    requires
        low < high,
    ensures
        low <= x < high,
{
    rand::thread_rng().gen_range(low..high)
}

/// The random numbers that one step of the client may use.
#[derive(Clone, Copy, Debug, PartialEq, Eq, Structural)]
pub struct Entropy {
    /// A candidate for the next transaction id.
    pub xid: u32,
    /// A delay in milliseconds, from one second to just under ten.
    pub delay_ms: u64,
    /// A jitter in milliseconds, from 0 to 2000: 1000 stands for none.
    pub jitter_ms: u64,
}

impl Entropy {
    /// The delay and the jitter lie in their ranges.
    pub open spec fn in_range(self) -> bool {
        &&& INIT_DELAY_MIN_MS <= self.delay_ms < INIT_DELAY_BOUND_MS
        &&& self.jitter_ms <= 2 * JITTER_MS
    }

    /// Draws the three numbers.
    pub fn draw() -> (entropy: Entropy)
        ensures
            entropy.in_range(),
    {
        Entropy {
            xid: random_u32(),
            delay_ms: random_in_range(INIT_DELAY_MIN_MS, INIT_DELAY_BOUND_MS),
            jitter_ms: random_in_range(0, 2 * JITTER_MS + 1),
        }
    }
}

/// The transaction id of a new cycle: the candidate that was drawn, or the
/// number after it where the candidate is the id in use.
pub open spec fn next_xid_spec(current: u32, candidate: u32) -> u32 {
    if candidate != current {
        candidate
    } else if candidate == u32::MAX {
        0
    } else {
        (candidate + 1) as u32
    }
}

/// Picks the transaction id of a new cycle, which is never the one in use.
pub fn next_xid(current: u32, candidate: u32) -> (xid: u32)
    ensures
        xid == next_xid_spec(current, candidate),
        xid != current,
{
    if candidate != current {
        candidate
    } else {
        candidate.wrapping_add(1)
    }
}

} // verus!

//! A lease and its timers: when to renew (T1), when to rebind (T2) and when
//! the lease ends. All times are in milliseconds.

use vstd::prelude::*;

verus! {

/// Milliseconds in one second.
pub const MILLIS_PER_SEC: u64 = 1_000;

/// The three deadlines of a lease, in milliseconds after it was obtained.
#[derive(Clone, Copy, Debug, PartialEq, Eq, Structural)]
pub struct LeaseTimers {
    /// When to start renewing with the server that gave the lease.
    pub t1_ms: u64,
    /// When to start rebinding with any server.
    pub t2_ms: u64,
    /// When the lease ends.
    pub expiry_ms: u64,
}

impl LeaseTimers {
    /// The deadlines come in order, and none is at the start of the lease.
    pub open spec fn ordered(self) -> bool {
        0 < self.t1_ms < self.t2_ms < self.expiry_ms
    }
}

/// A deadline of a lease.
#[derive(Clone, Copy, Debug, PartialEq, Eq, Structural)]
pub enum DeadlineKind {
    T1,
    T2,
    Expiry,
}

/// The timers of a lease of `duration_secs` seconds. What the server asks
/// for is taken where it gives deadlines in order; anything else falls back
/// to half of the lease for T1 and seven eighths of it for T2.
pub open spec fn timers_spec(
    duration_secs: u32,
    t1_secs: Option<u32>,
    t2_secs: Option<u32>,
) -> LeaseTimers {
    let expiry = duration_secs * MILLIS_PER_SEC;
    let default_t1 = expiry / 2;
    let default_t2 = 7 * expiry / 8;
    let t1 = match t1_secs {
        Some(secs) => secs * MILLIS_PER_SEC,
        None => default_t1,
    };
    let t2 = match t2_secs {
        Some(secs) => secs * MILLIS_PER_SEC,
        None => default_t2,
    };
    if 0 < t1 < t2 < expiry {
        LeaseTimers { t1_ms: t1 as u64, t2_ms: t2 as u64, expiry_ms: expiry as u64 }
    } else {
        LeaseTimers {
            t1_ms: default_t1 as u64,
            t2_ms: default_t2 as u64,
            expiry_ms: expiry as u64,
        }
    }
}

/// For every lease of more than zero seconds, the timers come in order:
/// `0 < T1 < T2 < L`, whatever the server asked for.
pub proof fn lemma_timers_ordered(duration_secs: u32, t1_secs: Option<u32>, t2_secs: Option<u32>)
    requires
        duration_secs > 0,
    ensures
        timers_spec(duration_secs, t1_secs, t2_secs).ordered(),
        timers_spec(duration_secs, t1_secs, t2_secs).expiry_ms == duration_secs * MILLIS_PER_SEC,
{
}

/// Where the server names no deadlines, T1 is half of the lease and T2
/// seven eighths of it, exactly.
pub proof fn lemma_default_timers(duration_secs: u32)
    ensures
        timers_spec(duration_secs, None, None).t1_ms == duration_secs * 500,
        timers_spec(duration_secs, None, None).t2_ms == duration_secs * 875,
        timers_spec(duration_secs, None, None).expiry_ms == duration_secs * 1000,
{
}

/// Computes the timers of a lease of `duration_secs` seconds from what the
/// server asked for. For a lease of more than zero seconds they come in
/// order, `0 < T1 < T2 < L`; a lease of zero seconds is no lease, and its
/// timers are all zero.
pub fn compute_timers(duration_secs: u32, t1_secs: Option<u32>, t2_secs: Option<u32>) -> (timers:
    LeaseTimers)
    ensures
        timers == timers_spec(duration_secs, t1_secs, t2_secs),
        timers.expiry_ms == duration_secs * MILLIS_PER_SEC,
        duration_secs > 0 ==> timers.ordered(),
{
    let expiry: u64 = duration_secs as u64 * MILLIS_PER_SEC;
    let default_t1: u64 = expiry / 2;
    let default_t2: u64 = 7 * expiry / 8;
    let t1: u64 = match t1_secs {
        Some(secs) => secs as u64 * MILLIS_PER_SEC,
        None => default_t1,
    };
    let t2: u64 = match t2_secs {
        Some(secs) => secs as u64 * MILLIS_PER_SEC,
        None => default_t2,
    };
    if 0 < t1 && t1 < t2 && t2 < expiry {
        LeaseTimers { t1_ms: t1, t2_ms: t2, expiry_ms: expiry }
    } else {
        LeaseTimers { t1_ms: default_t1, t2_ms: default_t2, expiry_ms: expiry }
    }
}

/// An address that a server has granted, for how long, and since when.
#[derive(Clone, Copy, Debug, PartialEq, Eq)]
pub struct Lease {
    /// The address that was granted.
    pub address: [u8; 4],
    /// The server that granted it.
    pub server: [u8; 4],
    /// How long the lease lasts.
    pub duration_ms: u64,
    /// When to start renewing, counted from `obtained_ms`.
    pub t1_ms: u64,
    /// When to start rebinding, counted from `obtained_ms`.
    pub t2_ms: u64,
    /// The time at which the lease was obtained.
    pub obtained_ms: u64,
}

impl Lease {
    /// The timers come in order: `0 < T1 < T2 < L`.
    pub open spec fn well_formed(self) -> bool {
        0 < self.t1_ms < self.t2_ms < self.duration_ms
    }

    /// The time that has passed since the lease was obtained; none, for a
    /// clock that reads earlier than that.
    pub open spec fn elapsed(self, now: u64) -> int {
        if now >= self.obtained_ms {
            now - self.obtained_ms
        } else {
            0
        }
    }

    /// The latest deadline that has been reached at `now`, if any has.
    pub open spec fn spec_deadline_reached(self, now: u64) -> Option<DeadlineKind> {
        if self.elapsed(now) >= self.duration_ms {
            Some(DeadlineKind::Expiry)
        } else if self.elapsed(now) >= self.t2_ms {
            Some(DeadlineKind::T2)
        } else if self.elapsed(now) >= self.t1_ms {
            Some(DeadlineKind::T1)
        } else {
            None
        }
    }

    /// The time from `now` to the first deadline that has not been reached
    /// yet; zero once the lease has ended.
    pub open spec fn spec_time_until_next_deadline(self, now: u64) -> int {
        if self.elapsed(now) < self.t1_ms {
            self.t1_ms - self.elapsed(now)
        } else if self.elapsed(now) < self.t2_ms {
            self.t2_ms - self.elapsed(now)
        } else if self.elapsed(now) < self.duration_ms {
            self.duration_ms - self.elapsed(now)
        } else {
            0
        }
    }

    /// The offset of a deadline from the moment the lease was obtained.
    pub open spec fn offset(self, kind: DeadlineKind) -> u64 {
        match kind {
            DeadlineKind::T1 => self.t1_ms,
            DeadlineKind::T2 => self.t2_ms,
            DeadlineKind::Expiry => self.duration_ms,
        }
    }

    /// The time from `now` to the given deadline; zero once it is reached.
    pub open spec fn spec_time_until(self, kind: DeadlineKind, now: u64) -> int {
        if self.elapsed(now) < self.offset(kind) {
            self.offset(kind) - self.elapsed(now)
        } else {
            0
        }
    }

    /// The lease with the given timers, obtained at `now`.
    pub fn new(address: [u8; 4], server: [u8; 4], timers: LeaseTimers, now: u64) -> (lease: Lease)
        ensures
            lease == (Lease {
                address,
                server,
                duration_ms: timers.expiry_ms,
                t1_ms: timers.t1_ms,
                t2_ms: timers.t2_ms,
                obtained_ms: now,
            }),
            timers.ordered() ==> lease.well_formed(),
    {
        Lease {
            address,
            server,
            duration_ms: timers.expiry_ms,
            t1_ms: timers.t1_ms,
            t2_ms: timers.t2_ms,
            obtained_ms: now,
        }
    }

    fn elapsed_at(self, now: u64) -> (e: u64)
        ensures
            e == self.elapsed(now),
    {
        if now >= self.obtained_ms {
            now - self.obtained_ms
        } else {
            0
        }
    }

    /// Says which deadline has been reached at `now`: the latest of them.
    #[verifier::when_used_as_spec(spec_deadline_reached)]
    pub fn deadline_reached(self, now: u64) -> (kind: Option<DeadlineKind>)
        ensures
            kind == self.spec_deadline_reached(now),
    {
        let elapsed = self.elapsed_at(now);
        if elapsed >= self.duration_ms {
            Some(DeadlineKind::Expiry)
        } else if elapsed >= self.t2_ms {
            Some(DeadlineKind::T2)
        } else if elapsed >= self.t1_ms {
            Some(DeadlineKind::T1)
        } else {
            None
        }
    }

    /// The time from `now` to the given deadline; zero once it is reached.
    pub fn time_until(self, kind: DeadlineKind, now: u64) -> (wait: u64)
        ensures
            wait == self.spec_time_until(kind, now),
    {
        let elapsed = self.elapsed_at(now);
        let offset = match kind {
            DeadlineKind::T1 => self.t1_ms,
            DeadlineKind::T2 => self.t2_ms,
            DeadlineKind::Expiry => self.duration_ms,
        };
        if elapsed < offset {
            offset - elapsed
        } else {
            0
        }
    }

    /// The time from `now` to the next deadline, which bounds how long a
    /// caller may wait for a message.
    pub fn time_until_next_deadline(self, now: u64) -> (wait: u64)
        ensures
            wait == self.spec_time_until_next_deadline(now),
    {
        let elapsed = self.elapsed_at(now);
        if elapsed < self.t1_ms {
            self.t1_ms - elapsed
        } else if elapsed < self.t2_ms {
            self.t2_ms - elapsed
        } else if elapsed < self.duration_ms {
            self.duration_ms - elapsed
        } else {
            0
        }
    }
}

/// No deadline of a well-formed lease has been reached at the moment it is
/// obtained; while it has not ended the wait to its next deadline is not
/// zero; and once that wait is over, a further deadline has been reached.
pub proof fn lemma_next_deadline(lease: Lease, now: u64, later: u64)
    requires
        lease.well_formed(),
        lease.obtained_ms <= now <= later,
        later - now >= lease.spec_time_until_next_deadline(now),
        lease.spec_deadline_reached(now) != Some(DeadlineKind::Expiry),
    ensures
        lease.spec_deadline_reached(lease.obtained_ms) is None,
        lease.spec_time_until_next_deadline(now) > 0,
        lease.spec_deadline_reached(later) is Some,
        lease.spec_deadline_reached(later) != lease.spec_deadline_reached(now),
{
}

} // verus!

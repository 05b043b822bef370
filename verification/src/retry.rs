//! How long to wait for an answer before sending again: a timeout that
//! doubles from a base up to a cap, with a little jitter, for a bounded
//! number of attempts.

use vstd::prelude::*;

verus! {

/// The timeout of the first attempt.
pub const RETRANSMIT_BASE_MS: u64 = 4_000;

/// The timeout that no attempt exceeds.
pub const RETRANSMIT_CAP_MS: u64 = 64_000;

/// How far the jitter moves a timeout, either way.
pub const JITTER_MS: u64 = 1_000;

/// How many times a message is sent before the machine gives the exchange up.
pub const MAX_ATTEMPTS: u32 = 6;

/// The shortest delay before the first DISCOVER of a cycle.
pub const INIT_DELAY_MIN_MS: u64 = 1_000;

/// The bound that the delay before the first DISCOVER stays under.
pub const INIT_DELAY_BOUND_MS: u64 = 10_000;

/// The timeout of attempt number `attempt`, counted from zero, before
/// jitter: the base for the first, then twice the one before, up to the cap.
pub open spec fn backoff(attempt: nat) -> nat
    decreases attempt,
{
    if attempt == 0 {
        RETRANSMIT_BASE_MS as nat
    } else if 2 * backoff((attempt - 1) as nat) < RETRANSMIT_CAP_MS {
        2 * backoff((attempt - 1) as nat)
    } else {
        RETRANSMIT_CAP_MS as nat
    }
}

/// The jitter in use: what was drawn, held to twice [`JITTER_MS`].
pub open spec fn clamp_jitter(jitter: u64) -> u64 {
    if jitter <= 2 * JITTER_MS {
        jitter
    } else {
        (2 * JITTER_MS) as u64
    }
}

/// The wait of attempt number `attempt`: its timeout moved by the jitter,
/// where a drawn value of 0 stands for one second less and 2000 for one
/// second more.
pub open spec fn wait_spec(attempt: nat, jitter: u64) -> nat {
    (backoff(attempt) - JITTER_MS + clamp_jitter(jitter)) as nat
}

/// The delay before the first DISCOVER of a cycle: what was drawn, held to
/// the range from [`INIT_DELAY_MIN_MS`] to just under [`INIT_DELAY_BOUND_MS`].
pub open spec fn init_delay_spec(delay: u64) -> u64 {
    if delay < INIT_DELAY_MIN_MS {
        INIT_DELAY_MIN_MS
    } else if delay >= INIT_DELAY_BOUND_MS {
        (INIT_DELAY_BOUND_MS - 1) as u64
    } else {
        delay
    }
}

/// Every timeout lies between the base and the cap.
pub proof fn lemma_backoff_bounds(attempt: nat)
    ensures
        RETRANSMIT_BASE_MS <= backoff(attempt) <= RETRANSMIT_CAP_MS,
    decreases attempt,
{
    if attempt > 0 {
        lemma_backoff_bounds((attempt - 1) as nat);
    }
}

/// From the fifth attempt on, the timeout is the cap.
pub proof fn lemma_backoff_capped(attempt: nat)
    requires
        attempt >= 4,
    ensures
        backoff(attempt) == RETRANSMIT_CAP_MS,
    decreases attempt,
{
    reveal_with_fuel(backoff, 5);
    if attempt > 4 {
        lemma_backoff_capped((attempt - 1) as nat);
    }
}

/// The timeouts never go down: a later attempt waits at least as long as
/// an earlier one, and never longer than the cap.
pub proof fn lemma_backoff_monotone(earlier: nat, later: nat)
    requires
        earlier <= later,
    ensures
        backoff(earlier) <= backoff(later) <= RETRANSMIT_CAP_MS,
    decreases later,
{
    lemma_backoff_bounds(later);
    if earlier < later {
        lemma_backoff_monotone(earlier, (later - 1) as nat);
        lemma_backoff_bounds((later - 1) as nat);
    }
}

/// The timeouts are 4, 8, 16, 32 and 64 seconds, and 64 seconds from then on.
pub proof fn lemma_backoff_values()
    ensures
        backoff(0) == 4_000,
        backoff(1) == 8_000,
        backoff(2) == 16_000,
        backoff(3) == 32_000,
        forall|n: nat| n >= 4 ==> #[trigger] backoff(n) == 64_000,
{
    reveal_with_fuel(backoff, 5);
    assert forall|n: nat| n >= 4 implies #[trigger] backoff(n) == 64_000 by {
        lemma_backoff_capped(n);
    }
}

/// The jitter moves a timeout by at most one second either way.
pub proof fn lemma_wait_bounds(attempt: nat, jitter: u64)
    ensures
        backoff(attempt) - JITTER_MS <= wait_spec(attempt, jitter) <= backoff(attempt) + JITTER_MS,
        RETRANSMIT_BASE_MS - JITTER_MS <= wait_spec(attempt, jitter) <= RETRANSMIT_CAP_MS
            + JITTER_MS,
{
    lemma_backoff_bounds(attempt);
}

/// The timeout of attempt number `attempt`, counted from zero, before jitter.
pub fn retransmit_timeout(attempt: u32) -> (timeout: u64)
    ensures
        timeout == backoff(attempt as nat),
        RETRANSMIT_BASE_MS <= timeout <= RETRANSMIT_CAP_MS,
{
    proof {
        lemma_backoff_values();
    }
    match attempt {
        0 => 4_000,
        1 => 8_000,
        2 => 16_000,
        3 => 32_000,
        _ => RETRANSMIT_CAP_MS,
    }
}

/// The wait of attempt number `attempt` with the jitter that was drawn.
pub fn retransmit_wait(attempt: u32, jitter: u64) -> (wait: u64)
    ensures
        wait == wait_spec(attempt as nat, jitter),
{
    let used: u64 = if jitter <= 2 * JITTER_MS {
        jitter
    } else {
        2 * JITTER_MS
    };
    retransmit_timeout(attempt) - JITTER_MS + used
}

/// The delay before the first DISCOVER of a cycle, from what was drawn.
pub fn init_delay(delay: u64) -> (used: u64)
    ensures
        used == init_delay_spec(delay),
        INIT_DELAY_MIN_MS <= used < INIT_DELAY_BOUND_MS,
{
    if delay < INIT_DELAY_MIN_MS {
        INIT_DELAY_MIN_MS
    } else if delay >= INIT_DELAY_BOUND_MS {
        INIT_DELAY_BOUND_MS - 1
    } else {
        delay
    }
}

/// The time `wait` after `now`, held to the largest time there is.
pub open spec fn deadline_after(now: u64, wait: nat) -> u64 {
    if now + wait <= u64::MAX {
        (now + wait) as u64
    } else {
        u64::MAX
    }
}

/// The deadline of a wait that starts at `now`.
pub fn deadline_from(now: u64, wait: u64) -> (deadline: u64)
    ensures
        deadline == deadline_after(now, wait as nat),
{
    now.saturating_add(wait)
}

} // verus!

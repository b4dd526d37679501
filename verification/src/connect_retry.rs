//! When and how long to wait before trying again to open a bus connection.
//!
//! The wait doubles from half a second with each failed attempt, is capped at
//! thirty seconds, and gets up to half a second of jitter taken from the clock.

use vstd::arithmetic::power2::{lemma2_to64, lemma_pow2_strictly_increases, lemma_pow2_unfold, pow2};
use vstd::prelude::*;

verus! {

/// Wait before the second connect attempt, in milliseconds.
pub const CONNECT_RETRY_BASE_DELAY_MS: u64 = 500;
/// Longest wait between connect attempts before jitter, in milliseconds.
pub const CONNECT_RETRY_MAX_DELAY_MS: u64 = 30000;
/// Largest jitter added to a wait, in milliseconds.
pub const CONNECT_RETRY_MAX_JITTER_MS: u64 = 500;
/// Number of connect attempts made before giving up.
pub const CONNECT_RETRY_MAX_ATTEMPTS: usize = 8;
/// Attempt number past which the wait stops doubling.
pub const CONNECT_RETRY_MAX_DOUBLINGS: usize = 16;

/// The wait after failed attempt `attempt` (counted from zero), before jitter:
/// `500 * 2^min(attempt, 16)` milliseconds, at most 30000.
pub open spec fn backoff_ms(attempt: nat) -> nat {
    let doublings: nat = if attempt < 16 {
        attempt
    } else {
        16
    };
    let uncapped = 500 * pow2(doublings);
    if uncapped < 30000 {
        uncapped
    } else {
        30000
    }
}

/// The jitter drawn from a clock reading: its nanoseconds modulo 501, in milliseconds.
pub open spec fn jitter_ms(clock_nanos: u32) -> nat {
    (clock_nanos % 501) as nat
}

/// Whether another attempt follows failed attempt `attempt`.
pub open spec fn retries_after(attempt: nat) -> bool {
    attempt + 1 < CONNECT_RETRY_MAX_ATTEMPTS
}

/// `2^e` as a machine integer, for `e <= 16`.
fn pow2_u64(e: usize) -> (p: u64)
    requires
        e <= 16,
    ensures
        p == pow2(e as nat),
        p <= 65536,
{
    proof {
        lemma2_to64();
    }
    let mut p: u64 = 1;
    let mut i: usize = 0;
    while i < e
        invariant
            i <= e <= 16,
            p == pow2(i as nat),
            pow2(16) == 65536,
        decreases e - i,
    {
        proof {
            lemma_pow2_unfold((i + 1) as nat);
            if i + 1 < 16 {
                lemma_pow2_strictly_increases((i + 1) as nat, 16);
            }
        }
        p = p * 2;
        i = i + 1;
    }
    proof {
        if e < 16 {
            lemma_pow2_strictly_increases(e as nat, 16);
        }
    }
    p
}

/// The wait after failed attempt `attempt`, before jitter, in milliseconds.
pub fn backoff_delay_ms(attempt: usize) -> (ms: u64)
    ensures
        ms == backoff_ms(attempt as nat),
{
    let doublings = if attempt < CONNECT_RETRY_MAX_DOUBLINGS {
        attempt
    } else {
        CONNECT_RETRY_MAX_DOUBLINGS
    };
    let uncapped = CONNECT_RETRY_BASE_DELAY_MS * pow2_u64(doublings);
    if uncapped < CONNECT_RETRY_MAX_DELAY_MS {
        uncapped
    } else {
        CONNECT_RETRY_MAX_DELAY_MS
    }
}

/// The wait after failed attempt `attempt`, given the clock's nanoseconds
/// past the second as the source of jitter.
pub fn retry_delay_ms(attempt: usize, clock_nanos: u32) -> (ms: u64)
    ensures
        ms == backoff_ms(attempt as nat) + jitter_ms(clock_nanos),
{
    backoff_delay_ms(attempt) + (clock_nanos as u64) % (CONNECT_RETRY_MAX_JITTER_MS + 1)
}

#[verifier::external_type_specification]
#[verifier::external_body]
pub struct ExSystemTime(std::time::SystemTime);

/// The system clock's current reading, from `std::time::SystemTime::now`.
/// Nothing is stated of the value: it is the clock's.
#[verifier::external_body]
fn system_time_now() -> std::time::SystemTime {
    std::time::SystemTime::now()
}

/// The time elapsed from the Unix epoch to `t`, from
/// `SystemTime::duration_since(UNIX_EPOCH)`; `None` where that call reports
/// an error, which its documentation says happens when `t` is earlier than
/// the epoch. Nothing more is stated: Verus sees nothing inside a `SystemTime`.
#[verifier::external_body]
fn duration_since_epoch(t: &std::time::SystemTime) -> Option<core::time::Duration> {
    match t.duration_since(std::time::UNIX_EPOCH) {
        Ok(elapsed) => Some(elapsed),
        Err(_) => None,
    }
}

/// The nanoseconds of `d` past its whole seconds, from
/// `Duration::subsec_nanos`, which documents the value to be below one billion.
#[verifier::external_body]
fn subsec_nanos(d: &core::time::Duration) -> (nanos: u32)
    ensures
        nanos < 1_000_000_000,
{
    d.subsec_nanos()
}

/// The wait after failed attempt `attempt`, with jitter drawn from the
/// nanoseconds past the current second of the system clock; when the clock
/// reads before the Unix epoch the jitter is zero.
pub fn connect_retry_delay_ms(attempt: usize) -> (ms: u64)
    ensures
        backoff_ms(attempt as nat) <= ms <= backoff_ms(attempt as nat) + CONNECT_RETRY_MAX_JITTER_MS,
{
    let clock_nanos: u32 = match duration_since_epoch(&system_time_now()) {
        Some(elapsed) => subsec_nanos(&elapsed),
        None => 0,
    };
    retry_delay_ms(attempt, clock_nanos)
}

/// What follows a failed connect attempt.
#[derive(Debug, Clone, Copy, PartialEq, Eq)]
pub enum ConnectStep {
    /// The last attempt failed: report the failure.
    GiveUp,
    /// Wait `delay_ms` milliseconds, then make attempt `next_attempt`.
    RetryAfter { delay_ms: u64, next_attempt: usize },
}

/// The decision after failed attempt `attempt` (counted from zero).
pub fn after_failed_attempt(attempt: usize) -> (step: ConnectStep)
    ensures
        !retries_after(attempt as nat) ==> step == ConnectStep::GiveUp,
        retries_after(attempt as nat) ==> (step matches ConnectStep::RetryAfter {
            delay_ms,
            next_attempt,
        } && next_attempt == attempt + 1 && backoff_ms(attempt as nat) <= delay_ms
            <= backoff_ms(attempt as nat) + CONNECT_RETRY_MAX_JITTER_MS),
{
    if attempt >= CONNECT_RETRY_MAX_ATTEMPTS - 1 {
        ConnectStep::GiveUp
    } else {
        ConnectStep::RetryAfter {
            delay_ms: connect_retry_delay_ms(attempt),
            next_attempt: attempt + 1,
        }
    }
}

/// The wait never shrinks from one failed attempt to the next.
pub proof fn backoff_never_shrinks(earlier: nat, later: nat)
    requires
        earlier <= later,
    ensures
        backoff_ms(earlier) <= backoff_ms(later),
{
    let d1: nat = if earlier < 16 {
        earlier
    } else {
        16
    };
    let d2: nat = if later < 16 {
        later
    } else {
        16
    };
    if d1 < d2 {
        lemma_pow2_strictly_increases(d1, d2);
    }
}

/// The wait before jitter lies between half a second and thirty seconds, and
/// doubles with each attempt until the cap: 500, 1000, 2000, ... milliseconds.
pub proof fn backoff_bounds(attempt: nat)
    ensures
        CONNECT_RETRY_BASE_DELAY_MS <= backoff_ms(attempt) <= CONNECT_RETRY_MAX_DELAY_MS,
        backoff_ms(0) == 500,
        backoff_ms(1) == 1000,
        backoff_ms(5) == 16000,
        attempt >= 6 ==> backoff_ms(attempt) == 30000,
{
    lemma2_to64();
    let d: nat = if attempt < 16 {
        attempt
    } else {
        16
    };
    if d > 0 {
        lemma_pow2_strictly_increases(0, d);
    }
    if attempt >= 6 && d > 6 {
        lemma_pow2_strictly_increases(6, d);
    }
}

/// At most eight connect attempts are made: from the first attempt, each
/// failure before the eighth leads to the next attempt, and the failure of
/// the eighth gives up.
pub proof fn connect_attempts_are_bounded(attempt: nat)
    ensures
        retries_after(attempt) <==> attempt < 7,
        retries_after(attempt) ==> attempt + 1 < CONNECT_RETRY_MAX_ATTEMPTS,
{
}

} // verus!

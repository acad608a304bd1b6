//! Reconnecting: how long to wait before the next stream.

use vstd::prelude::*;

use crate::health::elapsed;
use crate::health::HealthStatus;

verus! {

/// A stream that stayed up for this many nanoseconds counts as a success.
pub const STABLE_AFTER: u64 = 60_000_000_000;

/// The longest wait between two streams, in seconds, without the jitter.
pub const LONGEST_DELAY: u64 = 300;

/// The streams in a row that did not stay up.
pub struct Backoff {
    pub attempt: u32,
}

/// The smaller of two numbers.
pub open spec fn least(a: int, b: int) -> int {
    if a <= b {
        a
    } else {
        b
    }
}

/// Whether a stream that was connected at `connected_at`, if ever, had stayed up
/// long enough at `now`.
pub open spec fn stayed_connected_spec(connected_at: Option<u64>, now: u64) -> bool {
    match connected_at {
        Some(since) => crate::health::elapsed_spec(since, now) >= STABLE_AFTER,
        None => false,
    }
}

/// The attempts after one more stream.
pub open spec fn next_attempt(attempt: u32, stayed_connected: bool) -> u32 {
    if stayed_connected {
        0
    } else if attempt == u32::MAX {
        attempt
    } else {
        (attempt + 1) as u32
    }
}

/// The wait in seconds after so many attempts: it begins at two seconds, doubles
/// with every attempt, and is cut off at `LONGEST_DELAY`.
pub open spec fn delay_secs_spec(attempt: u32) -> int {
    let doublings = if attempt == 0 {
        0
    } else {
        (attempt - 1) as nat
    };
    least(2 * vstd::arithmetic::power2::pow2(doublings) as int, LONGEST_DELAY as int)
}

/// The jitter in milliseconds, taken from the nanoseconds of the wall clock's
/// second; none where that clock cannot be read.
pub open spec fn jitter_millis_spec(subsec_nanos: Option<u32>) -> int {
    match subsec_nanos {
        Some(nanos) => nanos as int % 1000,
        None => 0,
    }
}

/// Whether a stream that was connected at `connected_at`, if ever, had stayed up
/// long enough at `now`.
pub fn stayed_connected(connected_at: Option<u64>, now: u64) -> (r: bool)
    ensures
        r == stayed_connected_spec(connected_at, now),
{
    match connected_at {
        Some(since) => elapsed(since, now) >= STABLE_AFTER,
        None => false,
    }
}

/// The wait in seconds after so many attempts.
pub fn delay_secs(attempt: u32) -> (r: u64)
    ensures
        r == delay_secs_spec(attempt),
{
    let before: u32 = if attempt == 0 {
        0
    } else {
        attempt - 1
    };
    let exp: u32 = if before < 8 {
        before
    } else {
        8
    };
    proof {
        vstd::arithmetic::power2::lemma2_to64();
        vstd::bits::lemma_u64_shl_is_mul(1, exp as u64);
        if before > 8 {
            vstd::arithmetic::power2::lemma_pow2_strictly_increases(8, before as nat);
        }
    }
    let doubled: u64 = 2 * (1u64 << exp);
    if doubled < LONGEST_DELAY {
        doubled
    } else {
        LONGEST_DELAY
    }
}

impl Backoff {
    /// No stream has failed yet.
    pub fn new() -> (r: Backoff)
        ensures
            r.attempt == 0,
    {
        Backoff { attempt: 0 }
    }

    /// Takes note that a stream ended at `now`, by an error or not, and returns
    /// the milliseconds to wait before the next.
    pub fn stream_ended(
        &mut self,
        health: &mut HealthStatus,
        failed: bool,
        connected_at: Option<u64>,
        now: u64,
        subsec_nanos: Option<u32>,
    ) -> (millis: u64)
        ensures
            *final(health) == (if failed {
                old(health).reconnected()
            } else {
                *old(health)
            }),
            final(self).attempt == next_attempt(
                old(self).attempt,
                stayed_connected_spec(connected_at, now),
            ),
            millis == 1000 * delay_secs_spec(final(self).attempt) + jitter_millis_spec(subsec_nanos),
            2_000 <= millis < 301_000,
    {
        proof {
            law_delay_is_bounded(
                next_attempt(self.attempt, stayed_connected_spec(connected_at, now)),
                subsec_nanos,
            );
        }
        if failed {
            health.update_reconnect();
        }
        if stayed_connected(connected_at, now) {
            self.attempt = 0;
        } else {
            self.attempt = self.attempt.saturating_add(1);
        }
        let jitter: u64 = match subsec_nanos {
            Some(nanos) => (nanos % 1000) as u64,
            None => 0,
        };
        let secs: u64 = delay_secs(self.attempt);
        secs * 1000 + jitter
    }
}

/// The wait is never shorter than two seconds and never longer than five
/// minutes, and the jitter adds less than a second.
pub proof fn law_delay_is_bounded(attempt: u32, subsec_nanos: Option<u32>)
    ensures
        2 <= delay_secs_spec(attempt) <= 300,
        0 <= jitter_millis_spec(subsec_nanos) < 1000,
{
    let doublings = if attempt == 0 {
        0
    } else {
        (attempt - 1) as nat
    };
    vstd::arithmetic::power2::lemma_pow2_pos(doublings);
}

/// One more attempt never shortens the wait; it doubles the wait until that is
/// cut off.
pub proof fn law_delay_doubles(attempt: u32)
    requires
        1 <= attempt < u32::MAX,
    ensures
        delay_secs_spec((attempt + 1) as u32) == least(2 * delay_secs_spec(attempt), 300),
        delay_secs_spec(attempt) <= delay_secs_spec((attempt + 1) as u32),
{
    vstd::arithmetic::power2::lemma_pow2_unfold(attempt as nat);
    vstd::arithmetic::power2::lemma_pow2_pos((attempt - 1) as nat);
}

/// The first waits are two, four and eight seconds, and from the ninth attempt
/// on the wait is five minutes.
pub proof fn law_delay_sequence(attempt: u32)
    ensures
        delay_secs_spec(0) == 2,
        delay_secs_spec(1) == 2,
        delay_secs_spec(2) == 4,
        delay_secs_spec(3) == 8,
        delay_secs_spec(8) == 256,
        attempt >= 9 ==> delay_secs_spec(attempt) == 300,
{
    vstd::arithmetic::power2::lemma2_to64();
    if attempt > 9 {
        vstd::arithmetic::power2::lemma_pow2_strictly_increases(8, (attempt - 1) as nat);
    }
}

/// A stream that stayed up makes the next wait the shortest there is.
pub proof fn law_stable_stream_resets(attempt: u32)
    ensures
        delay_secs_spec(next_attempt(attempt, true)) == 2,
{
    vstd::arithmetic::power2::lemma2_to64();
}

/// Every stream that did not stay up counts as one more attempt, up to the
/// largest number, and one that stayed up ends the count.
pub proof fn law_every_short_stream_counts(attempt: u32)
    ensures
        attempt < 0xffff_ffff ==> next_attempt(attempt, false) == attempt + 1,
        next_attempt(0xffff_ffff, false) == 0xffff_ffff,
        next_attempt(attempt, true) == 0,
{
}

/// The attempts after `k` streams in a row that did not stay up.
pub open spec fn attempts_after(attempt: u32, k: nat) -> u32
    decreases k,
{
    if k == 0 {
        attempt
    } else {
        next_attempt(attempts_after(attempt, (k - 1) as nat), false)
    }
}

/// After `k` streams in a row that did not stay up, counted from the beginning or
/// from a stream that did, the wait is two to the power of `k` seconds, or five
/// minutes where that is less.
pub proof fn law_wait_after_short_streams(before: u32, k: nat)
    requires
        0 < k <= 0xffff_ffff,
    ensures
        attempts_after(0, k) == k,
        attempts_after(next_attempt(before, true), k) == k,
        delay_secs_spec(attempts_after(0, k)) == (if vstd::arithmetic::power2::pow2(k) < 300 {
            vstd::arithmetic::power2::pow2(k) as int
        } else {
            300
        }),
{
    lemma_attempts_after(k);
    vstd::arithmetic::power2::lemma_pow2_unfold(k);
}

/// From the beginning, the attempts are the streams that did not stay up.
proof fn lemma_attempts_after(k: nat)
    requires
        k <= 0xffff_ffff,
    ensures
        attempts_after(0, k) == k,
    decreases k,
{
    if k > 0 {
        lemma_attempts_after((k - 1) as nat);
    }
}

/// A stream counts as one that stayed up if and only if it was connected, and
/// that a minute ago or more.
pub proof fn law_stable_streams_last_a_minute(connected_at: Option<u64>, now: u64)
    ensures
        stayed_connected_spec(connected_at, now) <==> (connected_at matches Some(since) && since
            + 60_000_000_000 <= now),
{
}

/// The jitter is what the nanoseconds leave over a whole number of thousands, and
/// none without a clock.
pub proof fn law_jitter_is_the_rest_of_the_clock(nanos: u32) -> (thousands: int)
    ensures
        nanos == 1000 * thousands + jitter_millis_spec(Some(nanos)),
        0 <= jitter_millis_spec(Some(nanos)) < 1000,
        jitter_millis_spec(None) == 0,
{
    nanos as int / 1000
}

/// Of two numbers the least is one of them, and neither is less.
pub proof fn law_least_is_the_smaller(a: int, b: int)
    ensures
        least(a, b) <= a,
        least(a, b) <= b,
        least(a, b) == a || least(a, b) == b,
{
}

} // verus!

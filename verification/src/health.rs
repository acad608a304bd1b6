//! Health: when the last message came, and how often the stream broke.
//!
//! Times are nanoseconds on a clock that never goes back.

use vstd::prelude::*;

verus! {

/// A service is healthy as long as its last message is younger than this many
/// nanoseconds.
pub const HEALTHY_FOR: u64 = 300_000_000_000;

/// What is known of the service's health.
#[derive(Clone, Copy, Debug, PartialEq, Eq, Structural)]
pub struct HealthStatus {
    /// When the last message came; nothing once that time has been lost.
    pub last_message_time: Option<u64>,
    pub messages_processed: u64,
    pub reconnect_count: u64,
    pub start_time: u64,
}

/// The answer to a request for the service's health.
pub struct HealthResponse {
    pub status: String,
    pub last_message_ago_secs: u64,
    pub messages_processed: u64,
    pub reconnect_count: u64,
    pub uptime_secs: u64,
}

/// The time that has passed at `now` since `since`: none if that is still to come.
pub open spec fn elapsed_spec(since: u64, now: u64) -> int {
    if since <= now {
        now - since
    } else {
        0
    }
}

/// A counter's next value; it starts again behind the largest.
pub open spec fn counted(n: u64) -> u64 {
    if n == u64::MAX {
        0
    } else {
        (n + 1) as u64
    }
}

/// The time that has passed at `now` since `since`: none if that is still to come.
pub fn elapsed(since: u64, now: u64) -> (r: u64)
    ensures
        r == elapsed_spec(since, now),
{
    if since <= now {
        now - since
    } else {
        0
    }
}

impl HealthStatus {
    /// The health after a message at `now`. A lost time stays lost.
    pub open spec fn received(self, now: u64) -> HealthStatus {
        HealthStatus {
            last_message_time: match self.last_message_time {
                Some(_) => Some(now),
                None => None,
            },
            messages_processed: counted(self.messages_processed),
            ..self
        }
    }

    /// The health after the stream broke.
    pub open spec fn reconnected(self) -> HealthStatus {
        HealthStatus { reconnect_count: counted(self.reconnect_count), ..self }
    }

    /// Whether the service is healthy at `now`.
    pub open spec fn healthy_at(self, now: u64) -> bool {
        match self.last_message_time {
            Some(last) => elapsed_spec(last, now) < HEALTHY_FOR,
            None => false,
        }
    }

    /// The health of a service that starts at `now`.
    pub fn new(now: u64) -> (r: HealthStatus)
        ensures
            r == (HealthStatus {
                last_message_time: Some(now),
                messages_processed: 0,
                reconnect_count: 0,
                start_time: now,
            }),
    {
        HealthStatus {
            last_message_time: Some(now),
            messages_processed: 0,
            reconnect_count: 0,
            start_time: now,
        }
    }

    /// Takes note of a message at `now`.
    pub fn update_message_received(&mut self, now: u64)
        ensures
            *final(self) == old(self).received(now),
    {
        if self.last_message_time.is_some() {
            self.last_message_time = Some(now);
        }
        self.messages_processed = self.messages_processed.wrapping_add(1);
    }

    /// Takes note that the stream broke.
    pub fn update_reconnect(&mut self)
        ensures
            *final(self) == old(self).reconnected(),
    {
        self.reconnect_count = self.reconnect_count.wrapping_add(1);
    }

    /// Whether the service is healthy at `now`.
    pub fn is_healthy(&self, now: u64) -> (r: bool)
        ensures
            r == self.healthy_at(now),
    {
        match self.last_message_time {
            Some(last) => elapsed(last, now) < HEALTHY_FOR,
            None => false,
        }
    }

    /// The answer to a request at `now`.
    pub fn get_status(&self, now: u64) -> (r: HealthResponse)
        ensures
            r.status@ == (if self.healthy_at(now) {
                "healthy"@
            } else {
                "unhealthy"@
            }),
            r.last_message_ago_secs == (match self.last_message_time {
                Some(last) => elapsed_spec(last, now) / 1_000_000_000,
                None => 0,
            }),
            r.messages_processed == self.messages_processed,
            r.reconnect_count == self.reconnect_count,
            r.uptime_secs == elapsed_spec(self.start_time, now) / 1_000_000_000,
            self.start_time <= now ==> r.uptime_secs == (now - self.start_time) / 1_000_000_000,
            self.last_message_time matches Some(last) ==> last <= now ==> r.last_message_ago_secs
                == (now - last) / 1_000_000_000,
            r.status@ == "healthy"@ <==> (self.last_message_time matches Some(last) && now < last
                + 300_000_000_000),
    {
        proof {
            reveal_strlit("healthy");
            reveal_strlit("unhealthy");
            assert("healthy"@.len() != "unhealthy"@.len());
        }
        let last_message_ago_secs: u64 = match self.last_message_time {
            Some(last) => elapsed(last, now) / 1_000_000_000,
            None => 0,
        };
        HealthResponse {
            status: if self.is_healthy(now) {
                "healthy".to_owned()
            } else {
                "unhealthy".to_owned()
            },
            last_message_ago_secs,
            messages_processed: self.messages_processed,
            reconnect_count: self.reconnect_count,
            uptime_secs: elapsed(self.start_time, now) / 1_000_000_000,
        }
    }
}

/// A message makes the service healthy for five minutes and no longer, unless
/// the time of the last message has been lost.
pub proof fn law_message_is_good_for_five_minutes(health: HealthStatus, at: u64, now: u64)
    requires
        health.last_message_time is Some,
        at <= now,
    ensures
        health.received(at).healthy_at(now) <==> now - at < 300 * 1_000_000_000,
{
}

/// A service counts as healthy for the first five minutes without a message.
pub proof fn law_fresh_service_is_healthy(start: u64, now: u64)
    requires
        start <= now,
    ensures
        (HealthStatus {
            last_message_time: Some(start),
            messages_processed: 0,
            reconnect_count: 0,
            start_time: start,
        }).healthy_at(now) <==> now - start < 300 * 1_000_000_000,
{
}

/// A service whose last message time has been lost is never healthy again.
pub proof fn law_lost_time_stays_unhealthy(health: HealthStatus, at: u64, now: u64)
    requires
        health.last_message_time is None,
    ensures
        !health.healthy_at(now),
        !health.received(at).healthy_at(now),
        !health.reconnected().healthy_at(now),
{
}

/// Health follows the messages alone: that the stream broke changes the count
/// and nothing else.
pub proof fn law_reconnects_leave_health(health: HealthStatus, now: u64)
    ensures
        health.reconnected().healthy_at(now) == health.healthy_at(now),
        health.reconnected().messages_processed == health.messages_processed,
        health.reconnected().start_time == health.start_time,
{
}

/// Times add up: what has passed since an earlier time is what has passed up to
/// any time between and what has passed since then, without a bound; nothing has
/// passed since a time that is still to come.
pub proof fn law_passed_times_add_up(since: u64, between: u64, now: u64)
    ensures
        since <= now ==> since + elapsed_spec(since, now) == now,
        since <= between <= now ==> elapsed_spec(since, now) == elapsed_spec(since, between)
            + elapsed_spec(between, now),
        now <= since ==> elapsed_spec(since, now) == 0,
{
}

/// A counter goes up by one, and starts again behind the largest number.
pub proof fn law_counters_count(n: u64)
    ensures
        n < 0xffff_ffff_ffff_ffff ==> counted(n) == n + 1,
        counted(0xffff_ffff_ffff_ffff) == 0,
{
}

/// A message is counted once and sets the time of the last message, and changes
/// nothing else.
pub proof fn law_message_is_counted(health: HealthStatus, now: u64)
    ensures
        health.messages_processed < 0xffff_ffff_ffff_ffff ==> health.received(
            now,
        ).messages_processed == health.messages_processed + 1,
        health.messages_processed == 0xffff_ffff_ffff_ffff ==> health.received(
            now,
        ).messages_processed == 0,
        health.last_message_time is Some ==> health.received(now).last_message_time == Some(now),
        health.last_message_time is None ==> health.received(now).last_message_time is None,
        health.received(now).reconnect_count == health.reconnect_count,
        health.received(now).start_time == health.start_time,
{
}

/// A broken stream is counted once, and changes nothing else.
pub proof fn law_reconnect_is_counted(health: HealthStatus)
    ensures
        health.reconnect_count < 0xffff_ffff_ffff_ffff ==> health.reconnected().reconnect_count
            == health.reconnect_count + 1,
        health.reconnect_count == 0xffff_ffff_ffff_ffff ==> health.reconnected().reconnect_count
            == 0,
        health.reconnected().last_message_time == health.last_message_time,
        health.reconnected().messages_processed == health.messages_processed,
        health.reconnected().start_time == health.start_time,
{
}

/// The health at any time follows from the time of the last message alone: a
/// service is healthy for five minutes from it, and before it.
pub proof fn law_health_follows_the_last_message(health: HealthStatus, now: u64)
    ensures
        health.healthy_at(now) <==> (health.last_message_time matches Some(last) && now < last
            + 300_000_000_000),
{
}

} // verus!

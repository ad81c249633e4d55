//! Wall-clock instants, their RFC 3339 text, and the expiry test for
//! pending confirmations, all computed by `chrono`.

use chrono::{DateTime, TimeDelta};
use vstd::prelude::*;

verus! {

/// Nanoseconds per second.
pub const NANOS_PER_SEC: i128 = 1_000_000_000;

/// Seconds since the Unix epoch of 0000-01-01T00:00:00Z.
pub const EARLIEST_SECS: i64 = -62_167_219_200;

/// Seconds since the Unix epoch of 9999-12-31T23:59:59Z.
pub const LATEST_SECS: i64 = 253_402_300_799;

/// Largest time-to-live, in seconds, that `chrono` accepts for a duration
/// (`i64::MAX / 1000`).
pub const MAX_TTL_SECS: i64 = 9_223_372_036_854_775;

/// A UTC instant: whole seconds since the Unix epoch and the nanoseconds
/// past that second.
#[derive(Debug, Clone, Copy, PartialEq, Eq)]
pub struct UtcTime {
    pub secs: i64,
    pub nanos: u32,
}

impl UtcTime {
    /// An instant of a four-digit year (0000 to 9999) that is not inside a
    /// leap second. Every reading of the system clock is one in practice.
    pub open spec fn supported(self) -> bool {
        &&& EARLIEST_SECS <= self.secs <= LATEST_SECS
        &&& self.nanos < 1_000_000_000
    }

    /// The instant counted in nanoseconds since the Unix epoch.
    pub open spec fn total_nanos(self) -> int {
        self.secs * NANOS_PER_SEC + self.nanos
    }
}

/// A time-to-live that `chrono` can turn into a duration.
pub open spec fn ttl_in_range(ttl_secs: i64) -> bool {
    -MAX_TTL_SECS <= ttl_secs <= MAX_TTL_SECS
}

/// Whether a confirmation created at `created` has outlived `ttl_secs` at
/// `now`: more than the time-to-live has passed.
pub open spec fn outlived(now: UtcTime, created: UtcTime, ttl_secs: i64) -> bool {
    now.total_nanos() - created.total_nanos() > ttl_secs * NANOS_PER_SEC
}

/// A confirmation outlives its time-to-live once, and for good: not at its
/// own creation under a non-negative time-to-live, and from then on at
/// every later instant.
pub proof fn lemma_outlived_monotone(now: UtcTime, later: UtcTime, created: UtcTime, ttl_secs: i64)
    ensures
        outlived(now, created, ttl_secs) && now.total_nanos() <= later.total_nanos() ==> outlived(
            later,
            created,
            ttl_secs,
        ),
        ttl_secs >= 0 ==> !outlived(created, created, ttl_secs),
        outlived(now, created, ttl_secs) <==> now.total_nanos() > created.total_nanos() + ttl_secs * 1_000_000_000,
{
}

/// The RFC 3339 text that `chrono` writes for an instant (`to_rfc3339`).
pub uninterp spec fn rfc3339_text(secs: i64, nanos: u32) -> Seq<char>;

/// The UTC instant that `chrono` reads from a text with
/// `DateTime::parse_from_rfc3339`, or `None` where it refuses the text.
pub uninterp spec fn rfc3339_instant(text: Seq<char>) -> Option<(i64, u32)>;

/// Calls `DateTime::from_timestamp` and `DateTime::to_rfc3339`.
/// Trusted: the text is `rfc3339_text` of the instant, and for an instant of
/// a four-digit year `parse_from_rfc3339` reads that very instant back (the
/// writer prints the year with four digits, every nonzero fraction of a
/// second, and the offset `+00:00`).
#[verifier::external_body]
pub(crate) fn format_rfc3339(t: UtcTime) -> (res: Option<String>)
    requires
        t.supported(),
    ensures
        res is Some,
        res matches Some(text) ==> text@ == rfc3339_text(t.secs, t.nanos),
        res matches Some(text) ==> rfc3339_instant(text@) == Some((t.secs, t.nanos)),
{
    Some(DateTime::from_timestamp(t.secs, t.nanos)?.to_rfc3339())
}

/// Calls `DateTime::parse_from_rfc3339`, then `timestamp` and
/// `timestamp_subsec_nanos` of the instant in UTC.
/// Trusted: the result is `rfc3339_instant` of the text.
#[verifier::external_body]
pub(crate) fn parse_rfc3339(text: &str) -> (res: Option<UtcTime>)
    ensures
        res matches Some(t) ==> rfc3339_instant(text@) == Some((t.secs, t.nanos)),
        res is None ==> rfc3339_instant(text@) is None,
{
    let d = DateTime::parse_from_rfc3339(text).ok()?;
    Some(UtcTime { secs: d.timestamp(), nanos: d.timestamp_subsec_nanos() })
}

/// Calls `DateTime::from_timestamp` on both instants, subtracts them with
/// `DateTime`'s `-` and compares the difference with
/// `TimeDelta::seconds(ttl_secs)` by `TimeDelta`'s `>`.
/// Trusted: for instants without leap seconds the difference is exact, so
/// the comparison is `outlived`; `TimeDelta::seconds` panics outside
/// `ttl_in_range`, which `requires` leaves out.
#[verifier::external_body]
pub(crate) fn chrono_outlived(now: UtcTime, created: UtcTime, ttl_secs: i64) -> (res: Option<bool>)
    requires
        now.supported(),
        created.supported(),
        ttl_in_range(ttl_secs),
    ensures
        res == Some(outlived(now, created, ttl_secs)),
{
    let now = DateTime::from_timestamp(now.secs, now.nanos)?;
    let created = DateTime::from_timestamp(created.secs, created.nanos)?;
    Some(now - created > TimeDelta::seconds(ttl_secs))
}

} // verus!

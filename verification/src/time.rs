//! Instants of the calendar, as `chrono` counts them.

use vstd::prelude::*;

verus! {

#[verifier::external_type_specification]
#[verifier::external_body]
pub struct ExParseError(chrono::ParseError);

/// An instant in UTC: whole seconds since the Unix epoch that are no leap
/// seconds, and the nanoseconds since then. A leap second is the second before
/// it with a billion nanoseconds more.
#[derive(Clone, Copy, Debug, PartialEq, Eq, Structural)]
pub struct Timestamp {
    pub secs: i64,
    pub nanos: u32,
}

/// The beginning of the year 0.
pub const YEAR_0: i64 = -62_167_219_200;

/// The beginning of the year 10000.
pub const YEAR_10000: i64 = 253_402_300_800;

/// The first second that the calendar knows: the beginning of the year -262143.
pub const FIRST_SECOND: i64 = -8_334_601_228_800;

/// The last second that the calendar knows: the end of the year 262142.
pub const LAST_SECOND: i64 = 8_210_266_876_799;

/// The instant that RFC 3339 text denotes, as seconds and nanoseconds.
pub uninterp spec fn rfc3339_instant(text: Seq<char>) -> Option<(i64, u32)>;

/// The RFC 3339 text of an instant given as seconds and nanoseconds.
pub uninterp spec fn rfc3339_text(secs: i64, nanos: u32) -> Seq<char>;

/// The characters of RFC 3339 text.
pub open spec fn is_rfc3339_char(c: char) -> bool {
    '0' <= c <= '9' || c == '-' || c == ':' || c == '.' || c == '+' || c == 'T'
}

impl Timestamp {
    /// An instant that the calendar knows, with a leap second only where a minute
    /// ends.
    pub open spec fn wf(self) -> bool {
        &&& FIRST_SECOND <= self.secs <= LAST_SECOND
        &&& self.nanos < 1_000_000_000 || (self.nanos < 2_000_000_000 && self.secs % 60 == 59)
    }

    /// Whether the instant falls into one of the years 0 to 9999.
    pub open spec fn has_four_digit_year(self) -> bool {
        YEAR_0 <= self.secs < YEAR_10000
    }

    /// The instant with these seconds and nanoseconds.
    pub open spec fn at(instant: (i64, u32)) -> Timestamp {
        Timestamp { secs: instant.0, nanos: instant.1 }
    }

    /// Whether this instant is the other or comes before it.
    pub open spec fn not_after_spec(self, other: Timestamp) -> bool {
        self.secs < other.secs || (self.secs == other.secs && self.nanos <= other.nanos)
    }

    /// Nanoseconds since the Unix epoch, leap seconds not counted.
    pub open spec fn epoch_nanos(self) -> int {
        self.secs * 1_000_000_000 + self.nanos
    }

    /// The nanoseconds since the Unix epoch that a point is stamped with: zero
    /// where they do not fit.
    pub open spec fn stamp_spec(self) -> i64 {
        if i64::MIN <= self.epoch_nanos() <= i64::MAX {
            self.epoch_nanos() as i64
        } else {
            0
        }
    }

    /// Whether this instant is the other or comes before it.
    pub fn not_after(&self, other: &Timestamp) -> (r: bool)
        ensures
            r == self.not_after_spec(*other),
    {
        self.secs < other.secs || (self.secs == other.secs && self.nanos <= other.nanos)
    }

    /// Nanoseconds since the Unix epoch, where they fit into 64 bits.
    pub fn timestamp_nanos(&self) -> (r: Option<i64>)
        ensures
            match r {
                Some(n) => n == self.epoch_nanos(),
                None => !(i64::MIN <= self.epoch_nanos() <= i64::MAX),
            },
    {
        let total: i128 = self.secs as i128 * 1_000_000_000 + self.nanos as i128;
        if i64::MIN as i128 <= total && total <= i64::MAX as i128 {
            Some(total as i64)
        } else {
            None
        }
    }

    /// The nanoseconds since the Unix epoch that a point is stamped with: zero
    /// where they do not fit.
    pub fn stamp(&self) -> (r: i64)
        ensures
            r == self.stamp_spec(),
    {
        match self.timestamp_nanos() {
            Some(n) => n,
            None => 0,
        }
    }
}

/// `chrono::DateTime::parse_from_rfc3339`, moved to UTC: the instant that the
/// text denotes, by its seconds and nanoseconds, or an error. An instant that
/// comes back is one that the calendar knows.
#[verifier::external_body]
pub(crate) fn parse_rfc3339(text: &str) -> (r: Result<Timestamp, chrono::ParseError>)
    ensures
        match r {
            Ok(t) => rfc3339_instant(text@) == Some((t.secs, t.nanos)) && t.wf(),
            Err(_) => rfc3339_instant(text@) is None,
        },
{
    let utc = chrono::DateTime::parse_from_rfc3339(text)?.with_timezone(&chrono::Utc);
    Ok(Timestamp { secs: utc.timestamp(), nanos: utc.timestamp_subsec_nanos() })
}

/// `chrono::DateTime::to_rfc3339` of an instant in UTC, which
/// `chrono::DateTime::from_timestamp` has for every instant that the calendar knows. The text is digits,
/// signs, colons, a `T` and at most one point; where the year has four digits,
/// the text denotes the instant it was written for.
#[verifier::external_body]
pub(crate) fn to_rfc3339(t: &Timestamp) -> (r: String)
    requires
        t.wf(),
    ensures
        r@ == rfc3339_text(t.secs, t.nanos),
        r@.len() > 0,
        forall|i: int| 0 <= i < r@.len() ==> is_rfc3339_char(#[trigger] r@[i]),
        t.has_four_digit_year() ==> rfc3339_instant(r@) == Some((t.secs, t.nanos)),
{
    chrono::DateTime::from_timestamp(t.secs, t.nanos).unwrap().to_rfc3339()
}

/// Instants are in order: of any two one is not after the other, both only if
/// they are the same, and what is not after what is not after a third is not
/// after the third.
pub proof fn law_instants_are_in_order(a: Timestamp, b: Timestamp, c: Timestamp)
    ensures
        a.not_after_spec(b) || b.not_after_spec(a),
        a.not_after_spec(b) && b.not_after_spec(a) <==> a == b,
        a.not_after_spec(b) && b.not_after_spec(c) ==> a.not_after_spec(c),
{
}

/// An earlier second is earlier, whatever its nanoseconds, and within a second
/// fewer nanoseconds are earlier.
pub proof fn law_earlier_is_not_after(a: Timestamp, b: Timestamp)
    ensures
        a.secs < b.secs ==> a.not_after_spec(b) && !b.not_after_spec(a),
        a.secs == b.secs && a.nanos < b.nanos ==> a.not_after_spec(b) && !b.not_after_spec(a),
{
}

/// The stamp of an instant tells the instant: its quotient by a billion is the
/// second, and its remainder the nanoseconds. Only an instant that 64 bits cannot
/// hold is stamped with zero.
pub proof fn law_stamp_tells_the_instant(t: Timestamp)
    ensures
        t.nanos < 1_000_000_000 && -9_223_372_036 <= t.secs <= 9_223_372_035 ==> {
            &&& t.stamp_spec() as int / 1_000_000_000 == t.secs
            &&& t.stamp_spec() as int % 1_000_000_000 == t.nanos
        },
        t.secs * 1_000_000_000 + t.nanos > 0x7fff_ffff_ffff_ffff ==> t.stamp_spec() == 0,
        t.secs * 1_000_000_000 + t.nanos < -0x8000_0000_0000_0000 ==> t.stamp_spec() == 0,
{
}

/// However far an instant is from another, as many nanoseconds lie between their
/// stamps as between them, a leap second's among them.
pub proof fn law_stamps_keep_distances(a: Timestamp, b: Timestamp)
    requires
        -0x8000_0000_0000_0000 <= a.secs * 1_000_000_000 + a.nanos <= 0x7fff_ffff_ffff_ffff,
        -0x8000_0000_0000_0000 <= b.secs * 1_000_000_000 + b.nanos <= 0x7fff_ffff_ffff_ffff,
    ensures
        b.stamp_spec() - a.stamp_spec() == (b.secs - a.secs) * 1_000_000_000 + (b.nanos - a.nanos),
        a.secs == 0 && a.nanos == 0 ==> a.stamp_spec() == 0,
{
}

/// The calendar knows every instant of its days, the leap seconds at the end of a
/// minute among them, and the years with four digits are among these days.
pub proof fn law_calendar_is_whole_days(t: Timestamp)
    ensures
        t.has_four_digit_year() <==> -719_528 * 86_400 <= t.secs < 2_932_897 * 86_400,
        t.wf() <==> -96_465_292 * 86_400 <= t.secs < 95_026_237 * 86_400 && (t.nanos < 1_000_000_000
            || (t.secs % 60 == 59 && t.nanos < 2_000_000_000)),
        t.has_four_digit_year() && t.nanos < 1_000_000_000 ==> t.wf(),
{
}

/// A second is a billion nanoseconds, wherever the instant: from the epoch on,
/// seconds and nanoseconds add up.
pub proof fn law_seconds_and_nanoseconds_add_up(t: Timestamp)
    ensures
        t.epoch_nanos() - t.nanos == 1_000_000_000 * t.secs,
{
}

} // verus!

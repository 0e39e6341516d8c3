//! Instants in UTC, as the plugin reads them from the clock and stores them
//! with cached credentials.
use vstd::prelude::*;

verus! {

/// Smallest Unix second a UTC instant can have (the first second of year -262143).
pub const MIN_UTC_SECS: i64 = -8_334_601_228_800;

/// Largest Unix second a UTC instant can have (the last second of year 262142).
pub const MAX_UTC_SECS: i64 = 8_210_266_876_799;

/// Nanoseconds in one second.
pub const NANOS_PER_SEC: u32 = 1_000_000_000;

/// An instant in UTC: whole seconds since the Unix epoch and the nanoseconds
/// into that second. A leap second is written with `nanos` of one second or
/// more, on the last second of a minute.
#[derive(Clone, Copy, Debug, PartialEq, Eq, Structural)]
pub struct Timestamp {
    pub secs: i64,
    pub nanos: u32,
}

/// `(secs, nanos)` names a representable UTC instant.
pub open spec fn valid_instant(secs: int, nanos: int) -> bool {
    &&& MIN_UTC_SECS <= secs <= MAX_UTC_SECS
    &&& 0 <= nanos
    &&& (nanos < NANOS_PER_SEC || (nanos < 2 * NANOS_PER_SEC && secs % 60 == 59))
}

impl Timestamp {
    pub open spec fn wf(self) -> bool {
        valid_instant(self.secs as int, self.nanos as int)
    }

    /// `self` is not later than `other`.
    pub open spec fn spec_le(self, other: Timestamp) -> bool {
        self.secs < other.secs || (self.secs == other.secs && self.nanos <= other.nanos)
    }

    /// Whether `self` names a representable UTC instant.
    pub fn is_valid(&self) -> (r: bool)
        ensures
            r == self.wf(),
    {
        if self.secs < MIN_UTC_SECS || self.secs > MAX_UTC_SECS {
            return false;
        }
        if self.nanos < NANOS_PER_SEC {
            return true;
        }
        // The last second of a minute is 59 past it, before the epoch too.
        let shifted = self.secs - MIN_UTC_SECS;
        assert(MIN_UTC_SECS % 60 == 0);
        assert((self.secs - MIN_UTC_SECS) % 60 == self.secs % 60);
        self.nanos < 2 * NANOS_PER_SEC && shifted % 60 == 59
    }

    /// Whether `self` is not later than `other`.
    pub fn le(&self, other: &Timestamp) -> (r: bool)
        ensures
            r == self.spec_le(*other),
    {
        self.secs < other.secs || (self.secs == other.secs && self.nanos <= other.nanos)
    }
}

/// The RFC 3339 text of the UTC instant `secs`/`nanos`, as chrono writes it.
pub uninterp spec fn spec_rfc3339(secs: i64, nanos: u32) -> Seq<char>;

/// Reads the system clock with `std::time::SystemTime::now` and converts the
/// reading with chrono's `From<SystemTime> for DateTime<Utc>`, which also
/// accepts a clock set before 1970. Claimed: the instant is a valid UTC
/// instant, outside any leap second. Which instant it is depends on the clock
/// and is not stated. The conversion panics only for a clock set past the
/// year 262142, which no precondition can rule out.
#[verifier::external_body]
fn clock_now() -> (r: Timestamp)
    ensures
        r.wf(),
        r.nanos < NANOS_PER_SEC,
{
    let now = chrono::DateTime::<chrono::Utc>::from(std::time::SystemTime::now());
    Timestamp { secs: now.timestamp(), nanos: now.timestamp_subsec_nanos() }
}

/// The text chrono's `Debug` gives a UTC instant, such as
/// `1970-01-01T00:00:00Z`.
pub uninterp spec fn spec_utc_debug(secs: i64, nanos: u32) -> Seq<char>;

/// Writes a valid instant with the `Debug` formatting of
/// `chrono::DateTime<Utc>`, after building it with
/// `chrono::DateTime::from_timestamp`. Claimed: the text is `spec_utc_debug`
/// of the instant, a function of `secs` and `nanos` alone.
#[verifier::external_body]
fn utc_debug_text(secs: i64, nanos: u32) -> (r: String)
    requires
        valid_instant(secs as int, nanos as int),
    ensures
        r@ == spec_utc_debug(secs, nanos),
{
    format!("{:?}", chrono::DateTime::from_timestamp(secs, nanos).unwrap())
}

/// Formats a valid instant with `chrono::DateTime::<Utc>::to_rfc3339`, after
/// building it with `chrono::DateTime::from_timestamp`. Claimed: the text is
/// `spec_rfc3339` of the instant, a function of `secs` and `nanos` alone.
#[verifier::external_body]
fn rfc3339_text(secs: i64, nanos: u32) -> (r: String)
    requires
        valid_instant(secs as int, nanos as int),
    ensures
        r@ == spec_rfc3339(secs, nanos),
{
    chrono::DateTime::from_timestamp(secs, nanos).unwrap().to_rfc3339()
}

/// `t` moved `d` seconds later, with a leap second counted as the second
/// before it (as chrono adds a positive duration).
pub open spec fn spec_add_seconds(t: Timestamp, d: int) -> (int, int) {
    if t.nanos >= NANOS_PER_SEC {
        (t.secs + d, t.nanos - NANOS_PER_SEC)
    } else {
        (t.secs + d, t.nanos as int)
    }
}

impl Timestamp {
    /// The current instant in UTC.
    pub fn now() -> (r: Timestamp)
        ensures
            r.wf(),
            r.nanos < NANOS_PER_SEC,
    {
        clock_now()
    }

    /// The instant `d` seconds after `self`, or `None` when it falls outside
    /// the representable range.
    pub fn checked_add_seconds(&self, d: i64) -> (r: Option<Timestamp>)
        requires
            self.wf(),
            d > 0,
        ensures
            ({
                let (s, n) = spec_add_seconds(*self, d as int);
                match r {
                    Some(t) => t.secs == s && t.nanos == n && t.wf(),
                    None => !valid_instant(s, n),
                }
            }),
    {
        if self.secs > MAX_UTC_SECS - d {
            return None;
        }
        let secs = self.secs + d;
        let nanos = if self.nanos >= NANOS_PER_SEC { self.nanos - NANOS_PER_SEC } else { self.nanos };
        Some(Timestamp { secs, nanos })
    }

    /// The RFC 3339 text of this instant (for example
    /// `2024-05-01T12:00:00+00:00`).
    pub fn to_rfc3339(&self) -> (r: String)
        requires
            self.wf(),
        ensures
            r@ == spec_rfc3339(self.secs, self.nanos),
    {
        rfc3339_text(self.secs, self.nanos)
    }

    /// The text chrono's `Debug` gives this instant (for example
    /// `2024-05-01T12:00:00Z`).
    pub fn debug_text(&self) -> (r: String)
        requires
            self.wf(),
        ensures
            r@ == spec_utc_debug(self.secs, self.nanos),
    {
        utc_debug_text(self.secs, self.nanos)
    }
}

} // verus!

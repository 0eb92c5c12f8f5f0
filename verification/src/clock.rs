//! Points in time as plain numbers, the time between two of them, and the
//! text in which a time is stored.

use vstd::prelude::*;

verus! {

/// A point in time, as a local clock saw it. The library reads no clock:
/// whoever calls it says what time it is.
#[derive(Clone, Copy, Debug, PartialEq, Eq, Structural)]
pub struct Timestamp {
    /// Whole seconds since 1970-01-01T00:00:00Z.
    pub secs: i64,
    /// Nanoseconds past `secs`.
    pub nanos: u32,
    /// Seconds by which the local clock is ahead of UTC.
    pub offset: i32,
}

/// The RFC 3339 text of the time `secs` seconds and `nanos` nanoseconds
/// after 1970-01-01T00:00:00Z, written for a clock that is `offset` seconds
/// ahead of UTC; `None` where the calendar cannot hold the time or the
/// offset is a day or more.
pub uninterp spec fn rfc3339_text(secs: i64, nanos: u32, offset: i32) -> Option<Seq<char>>;

/// The quotient of `a` by `b`, rounded toward zero.
pub open spec fn whole(a: int, b: int) -> int
    recommends
        b > 0,
{
    if a >= 0 {
        a / b
    } else {
        -((-a) / b)
    }
}

/// Calls `chrono::DateTime::to_rfc3339` on the time that
/// `DateTime::from_timestamp(secs, nanos)` builds, moved to the zone
/// `FixedOffset::east_opt(offset)`. The text is a function of the three
/// numbers alone; there is none where either constructor refuses its
/// arguments.
#[verifier::external_body]
fn rfc3339(secs: i64, nanos: u32, offset: i32) -> (text: Option<String>)
    ensures
        match text {
            Some(t) => rfc3339_text(secs, nanos, offset) == Some(t@),
            None => rfc3339_text(secs, nanos, offset) is None,
        },
{
    let utc = chrono::DateTime::from_timestamp(secs, nanos)?;
    let zone = chrono::FixedOffset::east_opt(offset)?;
    Some(utc.with_timezone(&zone).to_rfc3339())
}

impl Timestamp {
    /// Nanoseconds since 1970-01-01T00:00:00Z.
    pub open spec fn instant(self) -> int {
        self.secs * 1_000_000_000 + self.nanos
    }

    /// Whole milliseconds from `earlier` to `self`; negative if `self` is
    /// the earlier one.
    pub open spec fn millis_since(self, earlier: Timestamp) -> int {
        whole(self.instant() - earlier.instant(), 1_000_000)
    }

    /// Whole seconds from `earlier` to `self`; negative if `self` is the
    /// earlier one.
    pub open spec fn seconds_since(self, earlier: Timestamp) -> int {
        whole(self.instant() - earlier.instant(), 1_000_000_000)
    }

    /// The time `seconds` later on the same clock; the last second that
    /// can be counted, where that would be passed.
    pub open spec fn plus_seconds(self, seconds: u64) -> Timestamp {
        Timestamp {
            secs: if self.secs + seconds > i64::MAX {
                i64::MAX
            } else {
                (self.secs + seconds) as i64
            },
            ..self
        }
    }

    /// Whether `self` comes before `other`.
    pub open spec fn is_before(self, other: Timestamp) -> bool {
        self.instant() < other.instant()
    }

    /// The text of the time as the packages table stores it.
    pub open spec fn text(self) -> Option<Seq<char>> {
        rfc3339_text(self.secs, self.nanos, self.offset)
    }

    /// Nanoseconds from `earlier` to `self`.
    fn nanos_since(&self, earlier: &Timestamp) -> (d: i128)
        ensures
            d == self.instant() - earlier.instant(),
    {
        let a: i128 = self.secs as i128 * 1_000_000_000 + self.nanos as i128;
        let b: i128 = earlier.secs as i128 * 1_000_000_000 + earlier.nanos as i128;
        a - b
    }

    /// Whole milliseconds from `earlier` to `self`.
    pub fn elapsed_millis(&self, earlier: &Timestamp) -> (ms: i128)
        ensures
            ms == self.millis_since(*earlier),
    {
        let d = self.nanos_since(earlier);
        if d >= 0 {
            d / 1_000_000
        } else {
            -((-d) / 1_000_000)
        }
    }

    /// The time `seconds` later on the same clock.
    pub fn later(&self, seconds: u64) -> (t: Timestamp)
        ensures
            t == self.plus_seconds(seconds),
    {
        let sum: i128 = self.secs as i128 + seconds as i128;
        let secs: i64 = if sum > i64::MAX as i128 {
            i64::MAX
        } else {
            sum as i64
        };
        Timestamp { secs, nanos: self.nanos, offset: self.offset }
    }

    /// Whether `self` comes before `other`.
    pub fn before(&self, other: &Timestamp) -> (b: bool)
        ensures
            b == self.is_before(*other),
    {
        other.nanos_since(self) > 0
    }

    /// The time as RFC 3339 text, for the packages table; `None` for a
    /// time that has no such text.
    pub fn to_rfc3339(&self) -> (text: Option<String>)
        ensures
            match text {
                Some(t) => self.text() == Some(t@),
                None => self.text() is None,
            },
    {
        rfc3339(self.secs, self.nanos, self.offset)
    }
}

} // verus!

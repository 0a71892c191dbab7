//! Instants as seconds and nanoseconds, and their textual form.

use chrono::TimeZone;
use vstd::prelude::*;

verus! {

/// Largest nanosecond part that a clock reading may carry, exclusive.
/// Values from one billion upward stand for a leap second.
pub const NANOS_LIMIT: i32 = 2_000_000_000;

/// An instant: whole seconds since 1970-01-01T00:00:00Z and the
/// nanoseconds that follow the last whole second.
#[derive(Clone, Copy, Debug, PartialEq, Eq, Structural)]
pub struct Timestamp {
    pub seconds: i64,
    pub nanos: i32,
}

/// The RFC 3339 text that chrono gives for the UTC instant `seconds`,
/// `nanos`, or `None` where chrono has no such instant.
pub uninterp spec fn rfc3339_text(seconds: i64, nanos: u32) -> Option<Seq<char>>;

/// Calls `chrono::TimeZone::timestamp_opt` on `Utc` and, where it yields a
/// single instant, `chrono::DateTime::to_rfc3339` on that instant. The
/// contract only names the outcome: the same seconds and nanoseconds
/// always give the same text, or always none.
#[verifier::external_body]
fn rfc3339(seconds: i64, nanos: u32) -> (text: Option<String>)
    ensures
        text is Some <==> rfc3339_text(seconds, nanos) is Some,
        text is Some ==> text->0@ == rfc3339_text(seconds, nanos)->0,
{
    match chrono::Utc.timestamp_opt(seconds, nanos) {
        chrono::LocalResult::Single(at) => Some(at.to_rfc3339()),
        chrono::LocalResult::Ambiguous(_, _) => None,
        chrono::LocalResult::None => None,
    }
}

/// Reads the clock with `chrono::Utc::now` and takes the reading apart with
/// `DateTime::timestamp` and `DateTime::timestamp_subsec_nanos`. The reading is an
/// instant that chrono has, so it has its text; its nanoseconds stay under two billion.
#[verifier::external_body]
fn utc_now() -> (reading: (i64, u32))
    ensures
        reading.1 < 2_000_000_000,
        rfc3339_text(reading.0, reading.1) is Some,
{
    let now = chrono::Utc::now();
    (now.timestamp(), now.timestamp_subsec_nanos())
}

impl Timestamp {
    /// The text of this instant, where it has one. A negative nanosecond
    /// part never has one.
    pub open spec fn text(self) -> Option<Seq<char>> {
        if self.nanos < 0 {
            None
        } else {
            rfc3339_text(self.seconds, self.nanos as u32)
        }
    }

    /// Whether this instant can be written out.
    pub open spec fn renders(self) -> bool {
        self.text() is Some
    }

    pub fn new(seconds: i64, nanos: i32) -> (ts: Timestamp)
        ensures
            ts.seconds == seconds,
            ts.nanos == nanos,
    {
        Timestamp { seconds, nanos }
    }

    /// Writes the instant as RFC 3339 text in UTC, such as
    /// `2024-01-01T00:00:00+00:00`.
    pub fn to_rfc3339(&self) -> (out: Option<String>)
        ensures
            out is Some <==> self.renders(),
            out is Some ==> out->0@ == self.text()->0,
    {
        if self.nanos < 0 {
            None
        } else {
            rfc3339(self.seconds, self.nanos as u32)
        }
    }
}

/// The instant that the wall clock shows now. It is one that can be written out.
pub fn to_ts() -> (ts: Timestamp)
    ensures
        0 <= ts.nanos < NANOS_LIMIT,
        ts.renders(),
{
    let (seconds, nanos) = utc_now();
    Timestamp { seconds, nanos: nanos as i32 }
}

} // verus!

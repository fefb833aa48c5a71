//! Instants and time spans, counted in nanoseconds.
//!
//! An instant is the number of nanoseconds since the Unix epoch, in UTC. The
//! arithmetic on instants is done by `chrono`.

use chrono::TimeDelta;
use chrono::Utc;
use vstd::prelude::*;

verus! {

/// An instant in UTC: `timestamp_nanos` nanoseconds after the Unix epoch.
#[derive(Clone, Copy, Debug, PartialEq, Eq, PartialOrd, Ord, Hash)]
pub struct DateTime {
    pub timestamp_nanos: i64,
}

impl View for DateTime {
    type V = int;

    open spec fn view(&self) -> int {
        self.timestamp_nanos as int
    }
}

/// A signed time span of `nanos` nanoseconds.
#[derive(Clone, Copy, Debug, PartialEq, Eq, PartialOrd, Ord, Hash)]
pub struct Duration {
    pub nanos: i64,
}

impl View for Duration {
    type V = int;

    open spec fn view(&self) -> int {
        self.nanos as int
    }
}

/// Builds the `chrono` instant of `at` nanoseconds and the `chrono` span of
/// `span` nanoseconds, subtracts with `chrono::DateTime::checked_sub_signed`
/// and reads the result with `chrono::DateTime::timestamp_nanos_opt`.
///
/// Every instant and span that is counted in 64-bit nanoseconds lies well
/// inside the range of `chrono`, so the subtraction itself is exact, and the
/// result is handed back exactly where it is again a 64-bit count.
#[verifier::external_body]
fn nanos_checked_sub(at: i64, span: i64) -> (r: Option<i64>)
    ensures
        i64::MIN <= at - span <= i64::MAX ==> r == Some((at - span) as i64),
        !(i64::MIN <= at - span <= i64::MAX) ==> r is None,
{
    let instant = chrono::DateTime::from_timestamp_nanos(at);
    match instant.checked_sub_signed(TimeDelta::nanoseconds(span)) {
        Some(earlier) => earlier.timestamp_nanos_opt(),
        None => None,
    }
}

/// Reads the clock with `chrono::Utc::now` and counts the instant with
/// `chrono::DateTime::timestamp_nanos_opt`. Nothing is claimed of the answer;
/// it is `None` where the clock shows an instant that 64-bit nanoseconds
/// cannot count. `chrono::Utc::now` takes it for granted that the system
/// clock does not show an instant before the Unix epoch.
#[verifier::external_body]
fn clock_nanos() -> (r: Option<i64>) {
    Utc::now().timestamp_nanos_opt()
}

impl DateTime {
    /// The instant `timestamp_nanos` nanoseconds after the Unix epoch.
    pub fn from_timestamp_nanos(timestamp_nanos: i64) -> (r: DateTime)
        ensures
            r@ == timestamp_nanos,
    {
        DateTime { timestamp_nanos }
    }

    /// The instant `span` before this one, or `None` where it cannot be
    /// counted.
    pub fn checked_sub(&self, span: Duration) -> (r: Option<DateTime>)
        ensures
            i64::MIN <= self@ - span@ <= i64::MAX ==> r is Some && r->0@ == self@ - span@,
            !(i64::MIN <= self@ - span@ <= i64::MAX) ==> r is None,
    {
        match nanos_checked_sub(self.timestamp_nanos, span.nanos) {
            Some(timestamp_nanos) => Some(DateTime { timestamp_nanos }),
            None => None,
        }
    }

    /// Whether this instant lies before `other`.
    pub fn is_before(&self, other: &DateTime) -> (r: bool)
        ensures
            r == (self@ < other@),
    {
        self.timestamp_nanos < other.timestamp_nanos
    }
}

impl Duration {
    /// The span of the given number of nanoseconds.
    pub fn nanoseconds(nanos: i64) -> (r: Duration)
        ensures
            r@ == nanos,
    {
        Duration { nanos }
    }
}

/// The present instant, or `None` where the clock is out of range.
pub fn now() -> (r: Option<DateTime>) {
    match clock_nanos() {
        Some(timestamp_nanos) => Some(DateTime { timestamp_nanos }),
        None => None,
    }
}

} // verus!

//! Time as the recorder counts it: instants in milliseconds since the Unix
//! epoch, spans in milliseconds.

use vstd::prelude::*;

verus! {

/// A span of time in whole milliseconds.
#[derive(Debug, Clone, Copy, PartialEq, Eq, Structural)]
pub struct TimeSpan {
    pub millis: u64,
}

/// The longest span that can be given in seconds.
pub const MAX_SPAN_SECS: u64 = 18_446_744_073_709_551;

impl TimeSpan {
    /// A span of `millis` milliseconds.
    pub fn from_millis(millis: u64) -> (span: TimeSpan)
        ensures
            span.millis == millis,
    {
        TimeSpan { millis }
    }

    /// A span of `secs` seconds.
    pub fn from_secs(secs: u64) -> (span: TimeSpan)
        requires
            secs <= MAX_SPAN_SECS,
        ensures
            span.millis == secs * 1000,
    {
        TimeSpan { millis: secs * 1000 }
    }

    /// The span in milliseconds.
    pub fn as_millis(&self) -> (millis: u64)
        ensures
            millis == self.millis,
    {
        self.millis
    }

    /// The whole seconds of the span.
    pub fn as_secs(&self) -> (secs: u64)
        ensures
            secs == self.millis / 1000,
    {
        self.millis / 1000
    }
}

/// The instant that lies `span` before `now`, in mathematical integers.
pub open spec fn instant_before(now: int, span: TimeSpan) -> int {
    now - span.millis
}

/// The instant that lies `span` after `now`, in mathematical integers.
pub open spec fn instant_after(now: int, span: TimeSpan) -> int {
    now + span.millis
}

/// The instant `span` before `now`, held at the earliest instant that can be
/// written where the true one lies before it.
pub fn saturating_before(now: i64, span: TimeSpan) -> (instant: i64)
    ensures
        instant == if instant_before(now as int, span) < i64::MIN {
            i64::MIN as int
        } else {
            instant_before(now as int, span)
        },
{
    let wide: i128 = now as i128 - span.millis as i128;
    if wide < i64::MIN as i128 {
        i64::MIN
    } else {
        wide as i64
    }
}

/// The instant `span` after `now`, or `None` where it cannot be written.
pub fn checked_after(now: i64, span: TimeSpan) -> (instant: Option<i64>)
    ensures
        match instant {
            Some(t) => t == instant_after(now as int, span),
            None => instant_after(now as int, span) > i64::MAX,
        },
{
    let wide: i128 = now as i128 + span.millis as i128;
    if wide > i64::MAX as i128 {
        None
    } else {
        Some(wide as i64)
    }
}

/// The instant `span` after `now`, held at the latest instant that can be
/// written where the true one lies after it.
pub open spec fn latest_or(instant: int) -> int {
    if instant > i64::MAX {
        i64::MAX as int
    } else {
        instant
    }
}

/// The instant `span` after `now`, see [`latest_or`].
pub fn saturating_after(now: i64, span: TimeSpan) -> (instant: i64)
    ensures
        instant == latest_or(instant_after(now as int, span)),
{
    match checked_after(now, span) {
        Some(instant) => instant,
        None => i64::MAX,
    }
}

/// Reads the clock.
///
/// Trusted: calls `Utc::now` of `chrono` and takes the instant's
/// `timestamp_millis`, which cuts off what is finer than a millisecond.
/// Nothing is stated of the result: it depends on the clock.
#[verifier::external_body]
pub(crate) fn now_millis() -> i64 {
    chrono::Utc::now().timestamp_millis()
}

} // verus!

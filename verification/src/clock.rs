//! Instants in seconds since the Unix epoch, and spans of time.

use std::time::Duration;
use vstd::prelude::*;

verus! {

/// How far from the epoch, in seconds, the dates that the `time` crate holds
/// can lie: a little over the years -9999 to 9999.
pub const INSTANT_LIMIT: i64 = 400_000_000_000;

/// Whether a clock or a date can show this instant.
pub open spec fn is_instant(seconds: int) -> bool {
    -INSTANT_LIMIT <= seconds <= INSTANT_LIMIT
}

/// `time::OffsetDateTime::now_utc`, in seconds: what the clock shows is not
/// known beforehand; it lies within the dates that the `time` crate holds.
#[verifier::external_body]
pub(crate) fn unix_now() -> (now: i64)
    ensures
        is_instant(now as int),
{
    time::OffsetDateTime::now_utc().unix_timestamp()
}

/// The instant that a date and time in the form of RFC 3339 stands for, in
/// seconds; nothing where `time::OffsetDateTime::parse` refuses the text.
pub uninterp spec fn rfc3339_instant(text: Seq<char>) -> Option<i64>;

/// `time::OffsetDateTime::parse` with `Rfc3339`, in seconds.
#[verifier::external_body]
pub(crate) fn parse_rfc3339(text: &str) -> (instant: Option<i64>)
    ensures
        instant == rfc3339_instant(text@),
        instant matches Some(seconds) ==> is_instant(seconds as int),
{
    time::OffsetDateTime::parse(text, &time::format_description::well_known::Rfc3339)
        .ok()
        .map(|t| t.unix_timestamp())
}

/// The length of a span of time in nanoseconds, as `Duration::as_nanos` gives it.
pub uninterp spec fn nanos(span: Duration) -> nat;

/// `Duration::from_secs`: a span of that many whole seconds.
pub assume_specification[ Duration::from_secs ](secs: u64) -> (span: Duration)
    ensures
        nanos(span) == secs as nat * 1_000_000_000,
;

/// `Duration::as_secs`: the whole seconds of the span.
pub assume_specification[ Duration::as_secs ](span: &Duration) -> (secs: u64)
    ensures
        secs as nat == nanos(*span) / 1_000_000_000,
;

/// A span of exactly that many seconds.
pub open spec fn is_seconds(span: Duration, secs: int) -> bool {
    nanos(span) == secs * 1_000_000_000
}

} // verus!

//! Instants as nanoseconds since the Unix epoch, and their RFC 3339 text.

use vstd::prelude::*;

use crate::error::{fails_with, AppError, ErrorKind};
use crate::text::concat;

verus! {

/// Nanoseconds in one second.
pub const NANOS_PER_SECOND: i128 = 1_000_000_000;

/// The largest magnitude, in seconds, of a time span the economy adds to an
/// instant.
pub const MAX_SPAN_SECONDS: i64 = 9_223_372_036_854_775;

/// The seconds since the epoch and the sub-second nanoseconds of the instant
/// that an RFC 3339 text denotes, when it denotes one.
pub uninterp spec fn rfc3339_instant(text: Seq<char>) -> Option<(i64, u32)>;

/// The RFC 3339 text (UTC, `+00:00` offset) of the instant `seconds` after
/// the epoch plus `nanos` nanoseconds, when that instant is representable.
pub uninterp spec fn rfc3339_rendering(seconds: i64, nanos: u32) -> Option<Seq<char>>;

/// Calls `chrono::DateTime::parse_from_rfc3339` and reads the parsed
/// instant's `timestamp()` and `timestamp_subsec_nanos()`. The contract
/// only names the outcome: the same text always gives the same parts.
#[verifier::external_body]
fn parse_rfc3339_parts(text: &str) -> (r: Option<(i64, u32)>)
    ensures
        r == rfc3339_instant(text@),
{
    match chrono::DateTime::parse_from_rfc3339(text) {
        Ok(parsed) => Some((parsed.timestamp(), parsed.timestamp_subsec_nanos())),
        Err(_) => None,
    }
}

/// Calls `chrono::DateTime::from_timestamp` and renders the instant with
/// `to_rfc3339()`; `None` when chrono cannot represent the instant. The
/// contract only names the outcome, a function of the two arguments.
#[verifier::external_body]
fn render_rfc3339_parts(seconds: i64, nanos: u32) -> (r: Option<String>)
    ensures
        match r {
            Some(t) => rfc3339_rendering(seconds, nanos) == Some(t@),
            None => rfc3339_rendering(seconds, nanos) is None,
        },
{
    match chrono::DateTime::from_timestamp(seconds, nanos) {
        Some(instant) => Some(instant.to_rfc3339()),
        None => None,
    }
}

/// The sub-second nanoseconds an instant keeps: chrono gives a leap second
/// (`23:59:60`) as nanoseconds of a billion or more within the second
/// before it; such an instant is kept as the last nanosecond of that second,
/// so it still orders after the rest of the second and before the next one.
pub open spec fn kept_nanos(nanos: u32) -> int {
    if nanos < NANOS_PER_SECOND {
        nanos as int
    } else {
        NANOS_PER_SECOND - 1
    }
}

/// The instant, in nanoseconds since the epoch, of seconds plus nanoseconds.
pub open spec fn instant_of(parts: (i64, u32)) -> int {
    parts.0 * NANOS_PER_SECOND + kept_nanos(parts.1)
}

/// The nanoseconds an instant keeps of chrono's sub-second nanoseconds.
pub fn keep_nanos(nanos: u32) -> (r: i128)
    ensures
        r == kept_nanos(nanos),
{
    if (nanos as i128) < NANOS_PER_SECOND {
        nanos as i128
    } else {
        NANOS_PER_SECOND - 1
    }
}

/// The instant an RFC 3339 text denotes, in nanoseconds since the epoch.
pub open spec fn parsed_instant(text: Seq<char>) -> Option<int> {
    match rfc3339_instant(text) {
        Some(parts) => Some(instant_of(parts)),
        None => None,
    }
}

/// The instant an RFC 3339 text denotes, if it denotes one.
pub fn parse_instant(text: &str) -> (r: Option<i128>)
    ensures
        match parsed_instant(text@) {
            Some(v) => r == Some(v as i128),
            None => r is None,
        },
        r matches Some(v) ==> instant_in_range(v as int),
{
    match parse_rfc3339_parts(text) {
        Some((seconds, nanos)) => Some((seconds as i128) * NANOS_PER_SECOND + keep_nanos(nanos)),
        None => None,
    }
}

/// Reads a stored RFC 3339 timestamp; stored text that is not one is
/// reported as unreadable data.
pub fn parse_rfc3339_utc(text: &str) -> (r: Result<i128, AppError>)
    ensures
        match parsed_instant(text@) {
            Some(v) => r == Ok::<i128, AppError>(v as i128),
            None => fails_with(r, ErrorKind::Other, "invalid RFC3339 timestamp: "@ + text@),
        },
        r matches Ok(v) ==> instant_in_range(v as int),
{
    match parse_instant(text) {
        Some(v) => Ok(v),
        None => Err(AppError::Other(concat("invalid RFC3339 timestamp: ", text))),
    }
}

/// Whole seconds since the epoch of an instant, rounded down.
pub open spec fn floor_seconds(instant: int) -> int {
    instant / (NANOS_PER_SECOND as int)
}

/// The number of whole seconds in a span of nanoseconds, rounded towards
/// zero (as `TimeDelta::num_seconds`).
pub open spec fn whole_seconds(span: int) -> int {
    if span >= 0 {
        span / (NANOS_PER_SECOND as int)
    } else {
        -((-span) / (NANOS_PER_SECOND as int))
    }
}

/// Whole seconds in a span between two instants, rounded towards zero.
pub fn span_whole_seconds(from: i128, to: i128) -> (r: i128)
    requires
        -0x4000_0000_0000_0000_0000_0000_0000_0000 < from < 0x4000_0000_0000_0000_0000_0000_0000_0000,
        -0x4000_0000_0000_0000_0000_0000_0000_0000 < to < 0x4000_0000_0000_0000_0000_0000_0000_0000,
    ensures
        r == whole_seconds(to - from),
{
    let span = to - from;
    if span >= 0 {
        span / NANOS_PER_SECOND
    } else {
        0 - ((0 - span) / NANOS_PER_SECOND)
    }
}

/// The RFC 3339 text of an instant given in nanoseconds, when chrono can
/// represent it.
pub open spec fn instant_text(instant: int) -> Option<Seq<char>> {
    let seconds = floor_seconds(instant);
    if i64::MIN <= seconds <= i64::MAX {
        rfc3339_rendering(seconds as i64, (instant % (NANOS_PER_SECOND as int)) as u32)
    } else {
        None
    }
}

/// Renders an instant as RFC 3339 text, when it is representable.
pub fn render_instant(instant: i128) -> (r: Option<String>)
    ensures
        match instant_text(instant as int) {
            Some(t) => r matches Some(s) && s@ == t,
            None => r is None,
        },
{
    let mut seconds = instant / NANOS_PER_SECOND;
    let mut nanos = instant % NANOS_PER_SECOND;
    if nanos < 0 {
        seconds = seconds - 1;
        nanos = nanos + NANOS_PER_SECOND;
    }
    assert(seconds == floor_seconds(instant as int)) by (nonlinear_arith)
        requires
            nanos == instant - seconds * 1_000_000_000,
            0 <= nanos < 1_000_000_000,
    {
    }
    assert(nanos == (instant as int) % (NANOS_PER_SECOND as int)) by (nonlinear_arith)
        requires
            nanos == instant - seconds * 1_000_000_000,
            0 <= nanos < 1_000_000_000,
    {
    }
    if seconds < (i64::MIN as i128) || seconds > (i64::MAX as i128) {
        return None;
    }
    render_rfc3339_parts(seconds as i64, nanos as u32)
}

/// An instant moved by a number of whole seconds.
pub open spec fn shifted(instant: int, seconds: int) -> int {
    instant + seconds * NANOS_PER_SECOND
}

/// The largest instant magnitude the economy works with, in nanoseconds.
pub open spec fn instant_in_range(instant: int) -> bool {
    -0x1000_0000_0000_0000_0000_0000_0000 <= instant <= 0x1000_0000_0000_0000_0000_0000_0000
}

/// Moves an instant by a number of whole seconds.
pub fn shift(instant: i128, seconds: i64) -> (r: i128)
    requires
        instant_in_range(instant as int),
    ensures
        r == shifted(instant as int, seconds as int),
{
    instant + (seconds as i128) * NANOS_PER_SECOND
}

} // verus!

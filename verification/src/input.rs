//! What members type into commands: ids picked from autocomplete lists and
//! times written by hand, and the claim time shown back to them.

use vstd::prelude::*;

use crate::clock::{
    floor_seconds, instant_in_range, instant_of, keep_nanos, parse_instant, parsed_instant, NANOS_PER_SECOND,
};
use crate::error::{fails_with, AppError, ErrorKind};
use crate::text::{owned, parse_i64, parse_i64_spec, push_str, trim, trim_seq};
use crate::ui::discord_timestamp;

verus! {

/// The id a member typed or picked: the trimmed text as a 64-bit integer.
pub open spec fn typed_id(value: Seq<char>) -> Option<i64> {
    parse_i64_spec(trim_seq(value))
}

fn read_id(value: &str, message: String) -> (r: Result<i64, AppError>)
    ensures
        match typed_id(value@) {
            Some(id) => r == Ok::<i64, AppError>(id),
            None => fails_with(r, ErrorKind::Validation, message@),
        },
{
    match parse_i64(trim(value)) {
        Some(id) => Ok(id),
        None => Err(AppError::Validation(message)),
    }
}

/// Reads a market id.
pub fn parse_market_id(value: &str) -> (r: Result<i64, AppError>)
    ensures
        match typed_id(value@) {
            Some(id) => r == Ok::<i64, AppError>(id),
            None => fails_with(
                r,
                ErrorKind::Validation,
                "pick a market from the autocomplete list or enter a numeric market id"@,
            ),
        },
{
    read_id(value, owned("pick a market from the autocomplete list or enter a numeric market id"))
}

/// Reads a share offer id.
pub fn parse_offer_id(value: &str) -> (r: Result<i64, AppError>)
    ensures
        match typed_id(value@) {
            Some(id) => r == Ok::<i64, AppError>(id),
            None => fails_with(
                r,
                ErrorKind::Validation,
                "pick an incoming offer from the autocomplete list or enter a numeric offer id"@,
            ),
        },
{
    read_id(
        value,
        owned("pick an incoming offer from the autocomplete list or enter a numeric offer id"),
    )
}

/// Reads a bond issuance id.
pub fn parse_bond_id(value: &str) -> (r: Result<i64, AppError>)
    ensures
        match typed_id(value@) {
            Some(id) => r == Ok::<i64, AppError>(id),
            None => fails_with(
                r,
                ErrorKind::Validation,
                "pick a bond from autocomplete or enter a numeric bond id"@,
            ),
        },
{
    read_id(value, owned("pick a bond from autocomplete or enter a numeric bond id"))
}

/// Reads the id of some `label` (a loan, an offer) picked from a list.
pub fn parse_id(value: &str, label: &str) -> (r: Result<i64, AppError>)
    ensures
        match typed_id(value@) {
            Some(id) => r == Ok::<i64, AppError>(id),
            None => fails_with(
                r,
                ErrorKind::Validation,
                "pick a "@ + label@ + " from the autocomplete list or enter a numeric id"@,
            ),
        },
{
    let mut m = owned("pick a ");
    push_str(&mut m, label);
    push_str(&mut m, " from the autocomplete list or enter a numeric id");
    read_id(value, m)
}

/// The wall-clock date and time that `text` spells in the chrono `format`,
/// as the seconds and nanoseconds it would be after the epoch in UTC.
pub uninterp spec fn naive_datetime_reading(text: Seq<char>, format: Seq<char>) -> Option<(i64, u32)>;

/// The date that `text` spells in the chrono `format`, at `hour:minute`,
/// as the seconds it would be after the epoch in UTC.
pub uninterp spec fn naive_date_reading(text: Seq<char>, format: Seq<char>, hour: u32, minute: u32) -> Option<
    i64,
>;

/// Calls `chrono::NaiveDateTime::parse_from_str` and reads the result as a
/// UTC wall clock (`and_utc`, `timestamp`, `timestamp_subsec_nanos`). The
/// contract only names the outcome, a function of the text and format. The
/// format is one of the library's own, none of which reads a timestamp
/// (`%s`): chrono's leap-second adjustment of a parsed timestamp can panic.
#[verifier::external_body]
fn read_naive_datetime(text: &str, format: &str) -> (r: Option<(i64, u32)>)
    requires
        format@ == "%Y-%m-%d %H:%M"@ || format@ == "%Y-%m-%dT%H:%M"@ || format@ == "%Y/%m/%d %H:%M"@,
    ensures
        r == naive_datetime_reading(text@, format@),
{
    match chrono::NaiveDateTime::parse_from_str(text, format) {
        Ok(v) => Some((v.and_utc().timestamp(), v.and_utc().timestamp_subsec_nanos())),
        Err(_) => None,
    }
}

/// Calls `chrono::NaiveDate::parse_from_str`, sets the time with
/// `and_hms_opt(hour, minute, 0)` and reads the result as a UTC wall clock.
/// The contract only names the outcome, a function of the arguments. The
/// format is the library's own date format.
#[verifier::external_body]
fn read_naive_date(text: &str, format: &str, hour: u32, minute: u32) -> (r: Option<i64>)
    requires
        format@ == "%Y-%m-%d"@,
    ensures
        r == naive_date_reading(text@, format@, hour, minute),
{
    match chrono::NaiveDate::parse_from_str(text, format) {
        Ok(d) => d.and_hms_opt(hour, minute, 0).map(|t| t.and_utc().timestamp()),
        Err(_) => None,
    }
}

/// What a wall-clock time is in the machine's time zone.
#[derive(Clone, Copy, Debug)]
pub enum LocalReading {
    /// One instant, as seconds and nanoseconds after the epoch.
    Single((i64, u32)),
    /// The first of two instants chrono reports (the clock was turned back).
    Ambiguous((i64, u32)),
    /// No instant (the clock was turned forward, or the zone is unknown).
    Missing,
}

/// Calls `chrono::Local.from_local_datetime` on the wall-clock time
/// `seconds` and `nanos` after the epoch, telling its three outcomes
/// apart. Which outcome comes, and which offset, depends on the machine's
/// time zone and is left unsaid. The contract states what chrono's source
/// shows of every outcome: a found instant is the wall-clock time less a
/// `FixedOffset`, whose whole seconds lie strictly within a day either way
/// (`FixedOffset::east_opt`), so the nanoseconds are kept.
#[verifier::external_body]
fn local_wall_clock(seconds: i64, nanos: u32) -> (r: LocalReading)
    ensures
        match r {
            LocalReading::Single(found) => within_a_day(found, (seconds, nanos)),
            LocalReading::Ambiguous(found) => within_a_day(found, (seconds, nanos)),
            LocalReading::Missing => true,
        },
{
    let naive = match chrono::DateTime::from_timestamp(seconds, nanos) {
        Some(v) => v.naive_utc(),
        None => return LocalReading::Missing,
    };
    match chrono::TimeZone::from_local_datetime(&chrono::Local, &naive) {
        chrono::LocalResult::Single(v) => LocalReading::Single((v.timestamp(), v.timestamp_subsec_nanos())),
        chrono::LocalResult::Ambiguous(first, _) => LocalReading::Ambiguous((first.timestamp(), first.timestamp_subsec_nanos())),
        chrono::LocalResult::None => LocalReading::Missing,
    }
}

/// The instant a local wall-clock time stands for: the only one, or the
/// first of two that chrono reports; a missing one is refused with
/// `missing_message`.
pub fn local_instant(reading: LocalReading, missing_message: &str) -> (r: Result<i128, AppError>)
    ensures
        match reading {
            LocalReading::Single(parts) => r == Ok::<i128, AppError>(instant_of(parts) as i128),
            LocalReading::Ambiguous(parts) => r == Ok::<i128, AppError>(instant_of(parts) as i128),
            LocalReading::Missing => fails_with(r, ErrorKind::Validation, missing_message@),
        },
{
    match reading {
        LocalReading::Single((s, n)) => Ok((s as i128) * 1_000_000_000 + keep_nanos(n)),
        LocalReading::Ambiguous((s, n)) => Ok((s as i128) * 1_000_000_000 + keep_nanos(n)),
        LocalReading::Missing => Err(AppError::Validation(owned(missing_message))),
    }
}

/// `found` is the wall-clock time `wall` moved by fewer than a day's whole
/// seconds, with the same nanoseconds.
pub open spec fn within_a_day(found: (i64, u32), wall: (i64, u32)) -> bool {
    &&& found.1 == wall.1
    &&& wall.0 - 86_400 < found.0 < wall.0 + 86_400
}

/// `v` is the wall-clock time `w` read in some time zone: `w` less a
/// whole number of seconds, fewer than a day either way.
pub open spec fn zone_reading_of(v: int, w: (i64, u32)) -> bool {
    &&& (instant_of(w) - v) % (NANOS_PER_SECOND as int) == 0
    &&& -86_400 * NANOS_PER_SECOND < instant_of(w) - v < 86_400 * NANOS_PER_SECOND
}

proof fn lemma_found_is_zone_reading(found: (i64, u32), wall: (i64, u32))
    requires
        within_a_day(found, wall),
    ensures
        zone_reading_of(instant_of(found), wall),
{
    let offset: int = wall.0 - found.0;
    assert(instant_of(wall) - instant_of(found) == offset * NANOS_PER_SECOND);
    vstd::arithmetic::div_mod::lemma_mod_multiples_basic(offset, NANOS_PER_SECOND as int);
}

/// What a typed time reads as before any time zone is consulted: an
/// instant, or a wall-clock time (seconds and nanoseconds after the epoch
/// as if it were UTC) still to be placed in the machine's time zone.
#[derive(Clone, Copy, Debug)]
pub enum TimeReading {
    /// A full RFC 3339 instant, in nanoseconds since the epoch.
    Instant(i128),
    /// A wall-clock time.
    WallClock((i64, u32)),
}

/// The wall-clock time a close time spells when it is not RFC 3339: the
/// first of `2026-06-22 21:00`, `2026-06-22T21:00`, `2026/06/22 21:00`
/// that reads, else a bare date at 23:59.
pub open spec fn close_time_wall_clock(t: Seq<char>) -> Option<(i64, u32)> {
    if naive_datetime_reading(t, "%Y-%m-%d %H:%M"@) is Some {
        naive_datetime_reading(t, "%Y-%m-%d %H:%M"@)
    } else if naive_datetime_reading(t, "%Y-%m-%dT%H:%M"@) is Some {
        naive_datetime_reading(t, "%Y-%m-%dT%H:%M"@)
    } else if naive_datetime_reading(t, "%Y/%m/%d %H:%M"@) is Some {
        naive_datetime_reading(t, "%Y/%m/%d %H:%M"@)
    } else {
        match naive_date_reading(t, "%Y-%m-%d"@, 23, 59) {
            Some(s) => Some((s, 0u32)),
            None => None,
        }
    }
}

/// Reads a market close time without consulting a time zone: full RFC
/// 3339 text is an instant; the other accepted forms are wall-clock times;
/// anything else is refused.
pub fn read_close_time(value: &str) -> (r: Result<TimeReading, AppError>)
    ensures
        match parsed_instant(trim_seq(value@)) {
            Some(v) => r == Ok::<TimeReading, AppError>(TimeReading::Instant(v as i128)),
            None => match close_time_wall_clock(trim_seq(value@)) {
                Some(w) => r == Ok::<TimeReading, AppError>(TimeReading::WallClock(w)),
                None => fails_with(
                    r,
                    ErrorKind::Validation,
                    "close_time must look like `2026-06-22 21:00`, `2026-06-22T21:00`, `2026-06-22`, or full RFC3339"@,
                ),
            },
        },
        r matches Ok(TimeReading::Instant(v)) ==> instant_in_range(v as int),
{
    let t = trim(value);
    if let Some(v) = parse_instant(t) {
        return Ok(TimeReading::Instant(v));
    }
    let wall = match read_naive_datetime(t, "%Y-%m-%d %H:%M") {
        Some(w) => Some(w),
        None => match read_naive_datetime(t, "%Y-%m-%dT%H:%M") {
            Some(w) => Some(w),
            None => match read_naive_datetime(t, "%Y/%m/%d %H:%M") {
                Some(w) => Some(w),
                None => match read_naive_date(t, "%Y-%m-%d", 23, 59) {
                    Some(s) => Some((s, 0u32)),
                    None => None,
                },
            },
        },
    };
    match wall {
        Some(w) => Ok(TimeReading::WallClock(w)),
        None => Err(
            AppError::Validation(
                owned(
                    "close_time must look like `2026-06-22 21:00`, `2026-06-22T21:00`, `2026-06-22`, or full RFC3339",
                ),
            ),
        ),
    }
}

/// Reads a market close time: full RFC 3339 text is taken as it is; other
/// accepted forms are wall-clock times placed in the machine's time zone,
/// where they may not exist; anything else is refused.
pub fn parse_close_time(value: &str) -> (r: Result<i128, AppError>)
    ensures
        match parsed_instant(trim_seq(value@)) {
            Some(v) => r == Ok::<i128, AppError>(v as i128),
            None => match close_time_wall_clock(trim_seq(value@)) {
                None => fails_with(
                    r,
                    ErrorKind::Validation,
                    "close_time must look like `2026-06-22 21:00`, `2026-06-22T21:00`, `2026-06-22`, or full RFC3339"@,
                ),
                Some(w) => (r matches Ok(v) && zone_reading_of(v as int, w)) || fails_with(
                    r,
                    ErrorKind::Validation,
                    "close_time could not be resolved in your local timezone"@,
                ),
            },
        },
{
    match read_close_time(value) {
        Ok(TimeReading::Instant(v)) => Ok(v),
        Ok(TimeReading::WallClock((s, n))) => place_in_local_zone(
            s,
            n,
            "close_time could not be resolved in your local timezone",
        ),
        Err(e) => Err(e),
    }
}

/// A wall-clock time placed in the machine's time zone: one of the
/// instants it names there, or a refusal with `missing_message`.
fn place_in_local_zone(seconds: i64, nanos: u32, missing_message: &str) -> (r: Result<i128, AppError>)
    ensures
        (r matches Ok(v) && zone_reading_of(v as int, (seconds, nanos))) || fails_with(
            r,
            ErrorKind::Validation,
            missing_message@,
        ),
{
    let reading = local_wall_clock(seconds, nanos);
    proof {
        match reading {
            LocalReading::Single(found) => lemma_found_is_zone_reading(found, (seconds, nanos)),
            LocalReading::Ambiguous(found) => lemma_found_is_zone_reading(found, (seconds, nanos)),
            LocalReading::Missing => {},
        }
    }
    local_instant(reading, missing_message)
}

/// Reads an optional market close time.
pub fn parse_optional_close_time(value: Option<String>) -> (r: Result<Option<i128>, AppError>)
    ensures
        value is None ==> r == Ok::<Option<i128>, AppError>(None),
        value matches Some(v) ==> match parsed_instant(trim_seq(v@)) {
            Some(t) => r == Ok::<Option<i128>, AppError>(Some(t as i128)),
            None => match close_time_wall_clock(trim_seq(v@)) {
                None => fails_with(
                    r,
                    ErrorKind::Validation,
                    "close_time must look like `2026-06-22 21:00`, `2026-06-22T21:00`, `2026-06-22`, or full RFC3339"@,
                ),
                Some(w) => (r matches Ok(Some(t)) && zone_reading_of(t as int, w)) || fails_with(
                    r,
                    ErrorKind::Validation,
                    "close_time could not be resolved in your local timezone"@,
                ),
            },
        },
{
    match value {
        None => Ok(None),
        Some(v) => match parse_close_time(v.as_str()) {
            Ok(t) => Ok(Some(t)),
            Err(e) => Err(e),
        },
    }
}

/// The wall-clock time a maturity spells when it is not RFC 3339: the
/// first of `2026-06-23 18:00`, `2026-06-23T18:00` that reads, else a bare
/// date at midnight.
pub open spec fn maturity_wall_clock(t: Seq<char>) -> Option<(i64, u32)> {
    if naive_datetime_reading(t, "%Y-%m-%d %H:%M"@) is Some {
        naive_datetime_reading(t, "%Y-%m-%d %H:%M"@)
    } else if naive_datetime_reading(t, "%Y-%m-%dT%H:%M"@) is Some {
        naive_datetime_reading(t, "%Y-%m-%dT%H:%M"@)
    } else {
        match naive_date_reading(t, "%Y-%m-%d"@, 0, 0) {
            Some(s) => Some((s, 0u32)),
            None => None,
        }
    }
}

/// Reads a bond maturity without consulting a time zone: full RFC 3339
/// text is an instant; the other accepted forms are wall-clock times;
/// anything else is refused.
pub fn read_maturity_time(value: &str) -> (r: Result<TimeReading, AppError>)
    ensures
        match parsed_instant(trim_seq(value@)) {
            Some(v) => r == Ok::<TimeReading, AppError>(TimeReading::Instant(v as i128)),
            None => match maturity_wall_clock(trim_seq(value@)) {
                Some(w) => r == Ok::<TimeReading, AppError>(TimeReading::WallClock(w)),
                None => fails_with(
                    r,
                    ErrorKind::Validation,
                    "time must look like `2026-06-23 18:00`, `2026-06-23T18:00`, `2026-06-23`, or full RFC3339"@,
                ),
            },
        },
        r matches Ok(TimeReading::Instant(v)) ==> instant_in_range(v as int),
{
    let t = trim(value);
    if let Some(v) = parse_instant(t) {
        return Ok(TimeReading::Instant(v));
    }
    let wall = match read_naive_datetime(t, "%Y-%m-%d %H:%M") {
        Some(w) => Some(w),
        None => match read_naive_datetime(t, "%Y-%m-%dT%H:%M") {
            Some(w) => Some(w),
            None => match read_naive_date(t, "%Y-%m-%d", 0, 0) {
                Some(s) => Some((s, 0u32)),
                None => None,
            },
        },
    };
    match wall {
        Some(w) => Ok(TimeReading::WallClock(w)),
        None => Err(
            AppError::Validation(
                owned(
                    "time must look like `2026-06-23 18:00`, `2026-06-23T18:00`, `2026-06-23`, or full RFC3339",
                ),
            ),
        ),
    }
}

/// Reads an optional bond maturity: nothing, or blank text, is none; full
/// RFC 3339 text is taken as it is; other accepted forms are wall-clock
/// times placed in the machine's time zone, where they may not exist;
/// anything else is refused.
pub fn parse_optional_time(input: Option<String>) -> (r: Result<Option<i128>, AppError>)
    ensures
        input is None ==> r == Ok::<Option<i128>, AppError>(None),
        input matches Some(raw) ==> if trim_seq(raw@).len() == 0 {
            r == Ok::<Option<i128>, AppError>(None)
        } else {
            match parsed_instant(trim_seq(raw@)) {
                Some(t) => r == Ok::<Option<i128>, AppError>(Some(t as i128)),
                None => match maturity_wall_clock(trim_seq(raw@)) {
                    None => fails_with(
                        r,
                        ErrorKind::Validation,
                        "time must look like `2026-06-23 18:00`, `2026-06-23T18:00`, `2026-06-23`, or full RFC3339"@,
                    ),
                    Some(w) => (r matches Ok(Some(t)) && zone_reading_of(t as int, w)) || fails_with(
                        r,
                        ErrorKind::Validation,
                        "that local time does not exist in your timezone"@,
                    ),
                },
            }
        },
{
    let raw = match input {
        None => {
            return Ok(None);
        },
        Some(raw) => raw,
    };
    if trim(raw.as_str()).unicode_len() == 0 {
        return Ok(None);
    }
    match read_maturity_time(raw.as_str()) {
        Ok(TimeReading::Instant(v)) => Ok(Some(v)),
        Ok(TimeReading::WallClock((s, n))) => match place_in_local_zone(
            s,
            n,
            "that local time does not exist in your timezone",
        ) {
            Ok(v) => Ok(Some(v)),
            Err(e) => Err(e),
        },
        Err(e) => Err(e),
    }
}

/// What the claim command says about the next claim at `now`: when it
/// opens, if that is still ahead, else that the claim is ready.
pub fn claim_time_text(next_claim_at: Option<i128>, now: i128) -> (r: String)
    requires
        next_claim_at matches Some(t) ==> i64::MIN <= floor_seconds(t as int) <= i64::MAX,
    ensures
        r@ == match next_claim_at {
            Some(t) => if t > now {
                "Next claim: "@ + "<t:"@ + crate::text::int_decimal(floor_seconds(t as int))
                    + ":F> (<t:"@ + crate::text::int_decimal(floor_seconds(t as int)) + ":R>)"@
            } else {
                "Claim is ready now."@
            },
            None => "Claim is ready now."@,
        },
{
    match next_claim_at {
        Some(t) => if t > now {
            let mut seconds = t / 1_000_000_000;
            let mut nanos = t % 1_000_000_000;
            if nanos < 0 {
                seconds = seconds - 1;
                nanos = nanos + 1_000_000_000;
            }
            assert(seconds == floor_seconds(t as int)) by (nonlinear_arith)
                requires
                    nanos == t - seconds * 1_000_000_000,
                    0 <= nanos < 1_000_000_000,
            {
            }
            let mut m = owned("Next claim: ");
            let stamp = discord_timestamp(seconds as i64);
            push_str(&mut m, stamp.as_str());
            m
        } else {
            owned("Claim is ready now.")
        },
        None => owned("Claim is ready now."),
    }
}

} // verus!

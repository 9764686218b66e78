//! The calls into chrono, chrono-tz and regex.
//!
//! Each function here hands plain values to one function of an outside crate
//! and hands its result back as plain values. Verus takes the contracts on
//! trust: they say that a result is what the outside function returns for
//! those arguments, under a name of its own, and nothing about what that is.

use chrono::{DateTime, Datelike, DurationRound, FixedOffset, NaiveDate, NaiveDateTime};
use chrono::{Offset, SecondsFormat, TimeDelta, Utc};
use chrono_tz::Tz;
use regex::Regex;
use vstd::prelude::*;

verus! {

/// How far from the start of 1970, in seconds, an instant may lie when it is
/// handed to chrono together with an offset from UTC. Farther out lie the
/// ends of chrono's calendar, where chrono panics once the offset pushes the
/// local time over the end.
pub const FAR_SECS: i64 = 8_000_000_000_000;

/// Whether the instant `secs` seconds after the start of 1970 lies clear of
/// the ends of chrono's calendar.
pub open spec fn clear_of_ends(secs: int) -> bool {
    -FAR_SECS <= secs <= FAR_SECS
}

/// What chrono makes of `text` read in the format `format` as a date: the
/// date's year, month and day, or the parse error as chrono's `Debug` writes
/// it.
pub uninterp spec fn parsed_date(text: Seq<char>, format: Seq<char>) -> Result<
    (i32, u32, u32),
    Seq<char>,
>;

/// The day that lies `days` days before the day `(year, month, day)` in
/// chrono's calendar; `None` where the three numbers name no day or the
/// result leaves the range of chrono's dates.
pub uninterp spec fn date_before(year: int, month: int, day: int, days: int) -> Option<
    (i32, u32, u32),
>;

/// The text that chrono writes for the day `(year, month, day)`; `None`
/// where the three numbers name no day.
pub uninterp spec fn date_display(year: int, month: int, day: int) -> Option<Seq<char>>;

/// What chrono makes of `text` read in the format `format` as a date and
/// time of day: the seconds and nanoseconds between the start of 1970 and
/// that time, or the parse error as chrono's `Debug` writes it.
pub uninterp spec fn parsed_date_time(text: Seq<char>, format: Seq<char>) -> Result<
    (i64, u32),
    Seq<char>,
>;

/// The offset from UTC, in seconds, that the zone named `zone` has at the
/// instant `secs` seconds after the start of 1970; `None` where chrono-tz
/// knows no such zone or chrono no such instant.
pub uninterp spec fn zone_offset(zone: Seq<char>, secs: int) -> Option<i32>;

/// The instant that chrono's `duration_trunc` makes of the instant
/// `(secs, nanos)` at the offset `offset` from UTC, with the span `span`
/// nanoseconds: the instant's local time is cut down to a multiple of the
/// span. `None` where chrono refuses the instant, the offset or the span.
pub uninterp spec fn local_truncated(secs: int, nanos: int, offset: int, span: int) -> Option<
    (i64, u32),
>;

/// The instant that chrono's `duration_round` makes of the UTC instant
/// `(secs, nanos)` with the span `span` nanoseconds: the nearest multiple of
/// the span. `None` where chrono refuses the instant or the span.
pub uninterp spec fn utc_rounded(secs: int, nanos: int, span: int) -> Option<(i64, u32)>;

/// The text that chrono's `to_rfc3339_opts` writes, with whole seconds, for
/// the instant `(secs, nanos)` at the offset `offset` from UTC; `None` where
/// chrono refuses the instant or the offset.
pub uninterp spec fn rfc3339_text(secs: int, nanos: int, offset: int, use_z: bool) -> Option<
    Seq<char>,
>;

/// The text that regex's `Regex::replace` makes of `text` when the pattern
/// `pattern` is replaced by `with`; `None` where the pattern does not
/// compile.
pub uninterp spec fn regex_replaced(pattern: Seq<char>, text: Seq<char>, with: Seq<char>) -> Option<
    Seq<char>,
>;

/// `NaiveDate::parse_from_str`. On success the parsed date's `year()`,
/// `month()` and `day()`, on failure the `Debug` text of chrono's error: the
/// result named `parsed_date`.
#[verifier::external_body]
pub(crate) fn parse_date_with(text: &str, format: &str) -> (r: Result<(i32, u32, u32), String>)
    ensures
        match r {
            Ok(ymd) => parsed_date(text@, format@) == Ok::<(i32, u32, u32), Seq<char>>(ymd),
            Err(e) => parsed_date(text@, format@) == Err::<(i32, u32, u32), Seq<char>>(e@),
        },
{
    match NaiveDate::parse_from_str(text, format) {
        Ok(d) => Ok((d.year(), d.month(), d.day())),
        Err(e) => Err(format!("{:?}", e)),
    }
}

/// `NaiveDate::checked_sub_signed` on the day that `NaiveDate::from_ymd_opt`
/// makes of the three numbers, with a span of `days` whole days: the result
/// named `date_before`.
#[verifier::external_body]
pub(crate) fn date_minus_days(year: i32, month: u32, day: u32, days: i64) -> (r: Option<
    (i32, u32, u32),
>)
    ensures
        r == date_before(year as int, month as int, day as int, days as int),
{
    let date = NaiveDate::from_ymd_opt(year, month, day)?;
    let before = date.checked_sub_signed(TimeDelta::try_days(days)?)?;
    Some((before.year(), before.month(), before.day()))
}

/// `NaiveDate`'s `Display` on the day that `NaiveDate::from_ymd_opt` makes of
/// the three numbers: the result named `date_display`.
#[verifier::external_body]
pub(crate) fn date_text(year: i32, month: u32, day: u32) -> (r: Option<String>)
    ensures
        match r {
            Some(t) => date_display(year as int, month as int, day as int) == Some(t@),
            None => date_display(year as int, month as int, day as int) is None,
        },
{
    let date = NaiveDate::from_ymd_opt(year, month, day)?;
    Some(date.to_string())
}

/// `NaiveDateTime::parse_from_str`. On success the parsed time as
/// `and_utc().timestamp()` and `timestamp_subsec_nanos()`, on failure the
/// `Debug` text of chrono's error: the result named `parsed_date_time`.
#[verifier::external_body]
pub(crate) fn parse_date_time_with(text: &str, format: &str) -> (r: Result<(i64, u32), String>)
    ensures
        match r {
            Ok(t) => parsed_date_time(text@, format@) == Ok::<(i64, u32), Seq<char>>(t),
            Err(e) => parsed_date_time(text@, format@) == Err::<(i64, u32), Seq<char>>(e@),
        },
{
    match NaiveDateTime::parse_from_str(text, format) {
        Ok(d) => Ok((d.and_utc().timestamp(), d.and_utc().timestamp_subsec_nanos())),
        Err(e) => Err(format!("{:?}", e)),
    }
}

/// `DateTime::with_timezone` with the chrono-tz zone that `zone` names, on
/// the instant `secs` seconds after the start of 1970; of the result its
/// offset from UTC in seconds: the result named `zone_offset`.
#[verifier::external_body]
pub(crate) fn zone_offset_at(zone: &str, secs: i64) -> (r: Option<i32>)
    ensures
        r == zone_offset(zone@, secs as int),
{
    let tz: Tz = zone.parse().ok()?;
    let utc = DateTime::from_timestamp(secs, 0)?;
    Some(utc.with_timezone(&tz).offset().fix().local_minus_utc())
}

/// `DurationRound::duration_trunc` on the instant `(secs, nanos)` at the
/// offset `offset`, with a span of `span` nanoseconds; the result as
/// `timestamp()` and `timestamp_subsec_nanos()`: the result named
/// `local_truncated`. The instant must lie clear of the ends of the calendar,
/// where chrono panics on the local time.
#[verifier::external_body]
pub(crate) fn truncate_local(secs: i64, nanos: u32, offset: i32, span: i64) -> (r: Option<
    (i64, u32),
>)
    requires
        clear_of_ends(secs as int),
    ensures
        r == local_truncated(secs as int, nanos as int, offset as int, span as int),
{
    let utc = DateTime::from_timestamp(secs, nanos)?;
    let local = utc.with_timezone(&FixedOffset::east_opt(offset)?);
    let cut = local.duration_trunc(TimeDelta::nanoseconds(span)).ok()?;
    Some((cut.timestamp(), cut.timestamp_subsec_nanos()))
}

/// `DurationRound::duration_round` on the UTC instant `(secs, nanos)`, with a
/// span of `span` nanoseconds; the result as `timestamp()` and
/// `timestamp_subsec_nanos()`: the result named `utc_rounded`.
#[verifier::external_body]
pub(crate) fn round_utc(secs: i64, nanos: u32, span: i64) -> (r: Option<(i64, u32)>)
    ensures
        r == utc_rounded(secs as int, nanos as int, span as int),
{
    let utc = DateTime::from_timestamp(secs, nanos)?;
    let rounded = utc.duration_round(TimeDelta::nanoseconds(span)).ok()?;
    Some((rounded.timestamp(), rounded.timestamp_subsec_nanos()))
}

/// `DateTime::to_rfc3339_opts` with `SecondsFormat::Secs` on the instant
/// `(secs, nanos)` at the offset `offset`: the result named `rfc3339_text`.
/// The instant must lie clear of the ends of the calendar, where chrono
/// panics on the local time.
#[verifier::external_body]
pub(crate) fn rfc3339_seconds(secs: i64, nanos: u32, offset: i32, use_z: bool) -> (r: Option<
    String,
>)
    requires
        clear_of_ends(secs as int),
    ensures
        match r {
            Some(t) => rfc3339_text(secs as int, nanos as int, offset as int, use_z) == Some(t@),
            None => rfc3339_text(secs as int, nanos as int, offset as int, use_z) is None,
        },
{
    let utc = DateTime::from_timestamp(secs, nanos)?;
    let local = utc.with_timezone(&FixedOffset::east_opt(offset)?);
    Some(local.to_rfc3339_opts(SecondsFormat::Secs, use_z))
}

/// `Regex::replace` with the regex that `Regex::new` makes of `pattern`: the
/// result named `regex_replaced`.
#[verifier::external_body]
pub(crate) fn regex_replace(pattern: &str, text: &str, with: &str) -> (r: Option<String>)
    ensures
        match r {
            Some(t) => regex_replaced(pattern@, text@, with@) == Some(t@),
            None => regex_replaced(pattern@, text@, with@) is None,
        },
{
    let regex = Regex::new(pattern).ok()?;
    Some(regex.replace(text, with).into_owned())
}

/// `Utc::now`: the present instant as `timestamp()` and
/// `timestamp_subsec_nanos()`. The clock decides the result; chrono makes it
/// of a whole number of seconds and a fraction of a second below one. On a
/// machine whose clock stands before 1970 chrono panics.
#[verifier::external_body]
pub(crate) fn clock_now() -> (r: (i64, u32))
    ensures
        r.1 < 1_000_000_000,
{
    let now = Utc::now();
    (now.timestamp(), now.timestamp_subsec_nanos())
}

} // verus!

//! Instants, and the waits until the trading hours of the New York Stock
//! Exchange begin and end.
//!
//! What a zone's offset is, where a day begins and how an instant is written
//! are chrono's and chrono-tz's to say. The arithmetic around those answers
//! is verified here, for every answer.

use crate::error::{Failure, FailureKind};
use crate::time::date::invalid_date_message;
use crate::time::outside::{
    clear_of_ends, clock_now, local_truncated, parse_date_time_with, parsed_date_time,
    regex_replace, regex_replaced, rfc3339_seconds, rfc3339_text, round_utc, truncate_local,
    utc_rounded, zone_offset, zone_offset_at, FAR_SECS,
};
use crate::time::span::{Duration, NANOS_PER_DAY, NANOS_PER_SECOND};
use vstd::prelude::*;
use vstd::string::StringExecFns;

verus! {

/// The zone of the New York Stock Exchange.
pub const NEW_YORK: &'static str = "America/New_York";

/// How a date and time of day is written.
pub const DATE_TIME_FORMAT: &'static str = "%Y-%m-%dT%H:%M:%S";

/// The offset from UTC at the end of a written instant: a sign, two digits,
/// a colon and two digits.
pub const UTC_OFFSET_PATTERN: &'static str = "[+-][0-9]{2}:[0-9]{2}$";

/// When the exchange opens: half past nine, as nanoseconds after local
/// midnight.
pub const NYSE_OPEN: i64 = 34_200_000_000_000;

/// When the exchange closes: four in the afternoon, as nanoseconds after
/// local midnight.
pub const NYSE_CLOSE: i64 = 57_600_000_000_000;

/// An instant: the seconds since the start of 1970 in UTC, and the
/// nanoseconds into that second.
#[derive(Debug, Clone, Copy, PartialEq, Eq, Structural)]
pub struct UtcTime {
    pub secs: i64,
    pub nanos: u32,
}

impl UtcTime {
    /// The nanoseconds are less than a second.
    pub open spec fn wf(self) -> bool {
        self.nanos < NANOS_PER_SECOND
    }

    /// The instant `nanos` nanoseconds after the second `secs`; `None` where
    /// `nanos` is a second or more.
    pub fn new(secs: i64, nanos: u32) -> (r: Option<UtcTime>)
        ensures
            r == if nanos < NANOS_PER_SECOND {
                Some(UtcTime { secs, nanos })
            } else {
                None
            },
    {
        if nanos < 1_000_000_000 {
            Some(UtcTime { secs, nanos })
        } else {
            None
        }
    }
}

/// An instant as a zone sees it: the instant, and the zone's offset from UTC
/// at that instant in seconds.
#[derive(Debug, Clone, Copy, PartialEq, Eq, Structural)]
pub struct ZonedTime {
    pub utc: UtcTime,
    pub offset: i32,
}

/// A date and time of day without a zone: the seconds between the start of
/// 1970 and that time, and the nanoseconds into that second.
#[derive(Debug, Clone, Copy, PartialEq, Eq, Structural)]
pub struct NaiveDateTime {
    pub secs: i64,
    pub nanos: u32,
}

/// The nanoseconds from the instant `(earlier_secs, earlier_nanos)` to the
/// instant `(later_secs, later_nanos)`.
pub open spec fn nanos_between(
    later_secs: int,
    later_nanos: int,
    earlier_secs: int,
    earlier_nanos: int,
) -> int {
    (later_secs - earlier_secs) * NANOS_PER_SECOND + (later_nanos - earlier_nanos)
}

/// The span of `nanos` nanoseconds, where a `Duration` can hold it.
pub open spec fn span_of(nanos: int) -> Option<Duration> {
    if i64::MIN <= nanos <= i64::MAX {
        Some(Duration { nanos: nanos as i64 })
    } else {
        None
    }
}

/// The span from one instant to another.
fn span_between(later_secs: i64, later_nanos: u32, earlier_secs: i64, earlier_nanos: u32) -> (r:
    Option<Duration>)
    ensures
        r == span_of(
            nanos_between(
                later_secs as int,
                later_nanos as int,
                earlier_secs as int,
                earlier_nanos as int,
            ),
        ),
{
    let secs: i128 = later_secs as i128 - earlier_secs as i128;
    let nanos: i128 = secs * 1_000_000_000 + (later_nanos as i128 - earlier_nanos as i128);
    if -9_223_372_036_854_775_808 <= nanos && nanos <= 9_223_372_036_854_775_807 {
        Some(Duration { nanos: nanos as i64 })
    } else {
        None
    }
}

/// The message for an instant of which chrono makes no day.
pub open spec fn out_of_range_message() -> Seq<char> {
    "instant out of the range of the calendar"@
}

fn out_of_range() -> (f: Failure)
    ensures
        f.kind == FailureKind::Validation,
        f.message@ == out_of_range_message(),
{
    Failure::validation(String::from_str("instant out of the range of the calendar"))
}

/// The span from `d` to the midnight in UTC that is nearest to it; `None`
/// where chrono finds no such midnight or the span is too long.
pub open spec fn spec_until_tomorrow(d: UtcTime) -> Option<Duration> {
    match utc_rounded(d.secs as int, d.nanos as int, NANOS_PER_DAY as int) {
        Some((secs, nanos)) => span_of(
            nanos_between(secs as int, nanos as int, d.secs as int, d.nanos as int),
        ),
        None => None,
    }
}

/// The span from `d` to the midnight in UTC that is nearest to it: after
/// noon the time left until the day ends, before noon the time since it
/// began, as a negative span.
pub fn until_tomorrow(d: UtcTime) -> (r: Result<Duration, Failure>)
    ensures
        match r {
            Ok(span) => spec_until_tomorrow(d) == Some(span),
            Err(f) => spec_until_tomorrow(d) is None && f.kind == FailureKind::Validation
                && f.message@ == out_of_range_message(),
        },
{
    let span = match round_utc(d.secs, d.nanos, NANOS_PER_DAY) {
        Some((secs, nanos)) => span_between(secs, nanos, d.secs, d.nanos),
        None => None,
    };
    match span {
        Some(span) => Ok(span),
        None => Err(out_of_range()),
    }
}

/// The present instant.
pub fn utc_now() -> (now: UtcTime)
    ensures
        now.wf(),
{
    let (secs, nanos) = clock_now();
    UtcTime { secs, nanos }
}

/// The span from now to the midnight in UTC that is nearest to now.
pub fn utc_until_tomorrow() -> (r: Result<Duration, Failure>)
    ensures
        match r {
            Ok(span) => exists|now: UtcTime| now.wf() && #[trigger] spec_until_tomorrow(now) == Some(
                span,
            ),
            Err(f) => f.kind == FailureKind::Validation && f.message@ == out_of_range_message(),
        },
{
    until_tomorrow(utc_now())
}

/// The instant `utc` as the zone named `zone` sees it.
pub fn in_zone(utc: UtcTime, zone: &str) -> (r: Result<ZonedTime, Failure>)
    ensures
        match r {
            Ok(zoned) => zoned.utc == utc && zone_offset(zone@, utc.secs as int) == Some(
                zoned.offset,
            ),
            Err(f) => zone_offset(zone@, utc.secs as int) is None && f.kind
                == FailureKind::Validation && f.message@ == out_of_range_message(),
        },
{
    match zone_offset_at(zone, utc.secs) {
        Some(offset) => Ok(ZonedTime { utc, offset }),
        None => Err(out_of_range()),
    }
}

/// The present instant as New York sees it.
pub fn new_york_now() -> (r: Result<ZonedTime, Failure>)
    ensures
        match r {
            Ok(zoned) => zoned.utc.wf() && zone_offset(NEW_YORK@, zoned.utc.secs as int) == Some(
                zoned.offset,
            ),
            Err(f) => f.kind == FailureKind::Validation && f.message@ == out_of_range_message(),
        },
{
    in_zone(utc_now(), NEW_YORK)
}

/// How long after the local midnight before it the instant `utc` lies, in
/// the zone named `zone`; `None` where chrono or chrono-tz has no answer or
/// the span is too long.
pub open spec fn since_local_midnight(utc: UtcTime, zone: Seq<char>) -> Option<Duration> {
    match zone_offset(zone, utc.secs as int) {
        Some(offset) if clear_of_ends(utc.secs as int) => match local_truncated(
            utc.secs as int,
            utc.nanos as int,
            offset as int,
            NANOS_PER_DAY as int,
        ) {
            Some((secs, nanos)) => span_of(
                nanos_between(utc.secs as int, utc.nanos as int, secs as int, nanos as int),
            ),
            None => None,
        },
        _ => None,
    }
}

/// The wait from an instant that lies `since` nanoseconds after local
/// midnight until the time of day `at` comes: today's where it is still
/// ahead, tomorrow's where it has passed.
pub open spec fn wait_until(at: int, since: int) -> int {
    if at - since < 0 {
        at + NANOS_PER_DAY - since
    } else {
        at - since
    }
}

/// The wait from `utc` until the time of day `at`, counted in nanoseconds
/// after local midnight, comes next in the zone named `zone`.
pub open spec fn spec_until_time_of_day(utc: UtcTime, zone: Seq<char>, at: i64) -> Option<
    Duration,
> {
    match since_local_midnight(utc, zone) {
        Some(since) => span_of(wait_until(at as int, since.nanos as int)),
        None => None,
    }
}

/// The wait from `utc` until the time of day `at`, counted in nanoseconds
/// after local midnight, comes next in the zone named `zone`.
pub fn until_time_of_day(utc: UtcTime, zone: &str, at: i64) -> (r: Result<Duration, Failure>)
    ensures
        match r {
            Ok(span) => spec_until_time_of_day(utc, zone@, at) == Some(span),
            Err(f) => spec_until_time_of_day(utc, zone@, at) is None && f.kind
                == FailureKind::Validation && f.message@ == out_of_range_message(),
        },
{
    let midnight = match zone_offset_at(zone, utc.secs) {
        Some(offset) if -FAR_SECS <= utc.secs && utc.secs <= FAR_SECS => truncate_local(
            utc.secs,
            utc.nanos,
            offset,
            NANOS_PER_DAY,
        ),
        _ => None,
    };
    let since = match midnight {
        Some((secs, nanos)) => span_between(utc.secs, utc.nanos, secs, nanos),
        None => None,
    };
    match since {
        Some(since) => {
            let first: i128 = at as i128 - since.nanos as i128;
            let wait: i128 = if first < 0 {
                first + 86_400_000_000_000
            } else {
                first
            };
            if -9_223_372_036_854_775_808 <= wait && wait <= 9_223_372_036_854_775_807 {
                Ok(Duration { nanos: wait as i64 })
            } else {
                Err(out_of_range())
            }
        },
        None => Err(out_of_range()),
    }
}

/// The wait from `utc_time` until the exchange next closes, at four in the
/// afternoon in New York.
pub fn until_nyse_trading_hours_end(utc_time: UtcTime) -> (r: Result<Duration, Failure>)
    ensures
        match r {
            Ok(span) => spec_until_time_of_day(utc_time, NEW_YORK@, NYSE_CLOSE) == Some(span),
            Err(f) => spec_until_time_of_day(utc_time, NEW_YORK@, NYSE_CLOSE) is None && f.kind
                == FailureKind::Validation && f.message@ == out_of_range_message(),
        },
{
    until_time_of_day(utc_time, NEW_YORK, NYSE_CLOSE)
}

/// The wait from `utc_time` until the exchange next opens, at half past nine
/// in the morning in New York.
pub fn until_nyse_trading_hours_start(utc_time: UtcTime) -> (r: Result<Duration, Failure>)
    ensures
        match r {
            Ok(span) => spec_until_time_of_day(utc_time, NEW_YORK@, NYSE_OPEN) == Some(span),
            Err(f) => spec_until_time_of_day(utc_time, NEW_YORK@, NYSE_OPEN) is None && f.kind
                == FailureKind::Validation && f.message@ == out_of_range_message(),
        },
{
    until_time_of_day(utc_time, NEW_YORK, NYSE_OPEN)
}

/// How long to wait at `now` before work that needs the exchange open: until
/// it opens where it opens before it next closes, not at all where it is
/// open.
pub open spec fn spec_trading_hours_wait(now: UtcTime) -> Option<Duration> {
    match (
        spec_until_time_of_day(now, NEW_YORK@, NYSE_OPEN),
        spec_until_time_of_day(now, NEW_YORK@, NYSE_CLOSE),
    ) {
        (Some(start), Some(end)) => if start.nanos < end.nanos {
            Some(start)
        } else {
            Some(Duration { nanos: 0 })
        },
        _ => None,
    }
}

/// How long to wait at `now` before work that needs the exchange open.
pub fn trading_hours_wait(now: UtcTime) -> (r: Result<Duration, Failure>)
    ensures
        match r {
            Ok(span) => spec_trading_hours_wait(now) == Some(span),
            Err(f) => spec_trading_hours_wait(now) is None && f.kind == FailureKind::Validation
                && f.message@ == out_of_range_message(),
        },
{
    let start = match until_nyse_trading_hours_start(now) {
        Ok(start) => start,
        Err(f) => {
            return Err(f);
        },
    };
    let end = match until_nyse_trading_hours_end(now) {
        Ok(end) => end,
        Err(f) => {
            return Err(f);
        },
    };
    if start.nanos < end.nanos {
        Ok(start)
    } else {
        Ok(Duration::zero())
    }
}

/// What `parse_date_time` returns for `text`: the time, or the message of
/// the failure.
pub open spec fn spec_parse_date_time(text: Seq<char>) -> Result<NaiveDateTime, Seq<char>> {
    match parsed_date_time(text, DATE_TIME_FORMAT@) {
        Ok((secs, nanos)) => Ok(NaiveDateTime { secs, nanos }),
        Err(reason) => Err(invalid_date_message(text, reason)),
    }
}

/// Reads a date and time of day written like `2023-08-31T09:30:00`.
pub fn parse_date_time(d: &str) -> (r: Result<NaiveDateTime, Failure>)
    ensures
        match r {
            Ok(time) => spec_parse_date_time(d@) == Ok::<NaiveDateTime, Seq<char>>(time),
            Err(f) => f.kind == FailureKind::Validation && spec_parse_date_time(d@) == Err::<
                NaiveDateTime,
                Seq<char>,
            >(f.message@),
        },
{
    match parse_date_time_with(d, DATE_TIME_FORMAT) {
        Ok((secs, nanos)) => Ok(NaiveDateTime { secs, nanos }),
        Err(reason) => {
            let mut message = String::from_str("Invalid date format ");
            message.append(d);
            message.append(": ");
            message.append(reason.as_str());
            Err(Failure::validation(message))
        },
    }
}

/// The instant `(secs, nanos)` at the offset `offset`, written to the second
/// and without its offset; `None` where chrono writes no such instant.
pub open spec fn db_time_text(secs: i64, nanos: u32, offset: i32) -> Option<Seq<char>> {
    if clear_of_ends(secs as int) {
        match rfc3339_text(secs as int, nanos as int, offset as int, false) {
            Some(text) => regex_replaced(UTC_OFFSET_PATTERN@, text, ""@),
            None => None,
        }
    } else {
        None
    }
}

/// Writes an instant to the second, as its offset sees it, and without the
/// offset.
fn write_db_time(secs: i64, nanos: u32, offset: i32) -> (r: Result<String, Failure>)
    ensures
        match r {
            Ok(text) => db_time_text(secs, nanos, offset) == Some(text@),
            Err(f) => db_time_text(secs, nanos, offset) is None && f.kind
                == FailureKind::Validation && f.message@ == out_of_range_message(),
        },
{
    let written = if -FAR_SECS <= secs && secs <= FAR_SECS {
        match rfc3339_seconds(secs, nanos, offset, false) {
            Some(text) => regex_replace(UTC_OFFSET_PATTERN, text.as_str(), ""),
            None => None,
        }
    } else {
        None
    };
    match written {
        Some(text) => Ok(text),
        None => Err(out_of_range()),
    }
}

/// Writes a date and time of day like `2023-08-31T09:30:00`.
pub fn format_naive_daytime(dt: &NaiveDateTime) -> (r: Result<String, Failure>)
    ensures
        match r {
            Ok(text) => db_time_text(dt.secs, dt.nanos, 0) == Some(text@),
            Err(f) => db_time_text(dt.secs, dt.nanos, 0) is None && f.kind
                == FailureKind::Validation && f.message@ == out_of_range_message(),
        },
{
    write_db_time(dt.secs, dt.nanos, 0)
}

/// Writes an instant as its zone sees it, like `2023-08-31T09:30:00`.
pub fn format_db_time(dt: &ZonedTime) -> (r: Result<String, Failure>)
    ensures
        match r {
            Ok(text) => db_time_text(dt.utc.secs, dt.utc.nanos, dt.offset) == Some(text@),
            Err(f) => db_time_text(dt.utc.secs, dt.utc.nanos, dt.offset) is None && f.kind
                == FailureKind::Validation && f.message@ == out_of_range_message(),
        },
{
    write_db_time(dt.utc.secs, dt.utc.nanos, dt.offset)
}

/// Writes the present instant as New York sees it.
pub fn formatted_ny_db_time() -> (r: Result<String, Failure>)
    ensures
        match r {
            Ok(text) => exists|now: ZonedTime|
                now.utc.wf() && zone_offset(NEW_YORK@, now.utc.secs as int) == Some(now.offset)
                    && #[trigger] db_time_text(now.utc.secs, now.utc.nanos, now.offset) == Some(
                    text@,
                ),
            Err(f) => f.kind == FailureKind::Validation && f.message@ == out_of_range_message(),
        },
{
    match new_york_now() {
        Ok(now) => {
            let r = format_db_time(&now);
            proof {
                if r is Ok {
                    assert(db_time_text(now.utc.secs, now.utc.nanos, now.offset) == Some(
                        r->Ok_0@,
                    ));
                }
            }
            r
        },
        Err(f) => Err(f),
    }
}

} // verus!

use chrono::{DateTime, NaiveDate, SubsecRound, TimeZone, Utc};
use chrono_tz::America::New_York;
use regex::Regex;
use trading_gateway::error::FailureKind;
use trading_gateway::proto::Period;
use trading_gateway::time::{
    format_db_time, format_naive_daytime, formatted_ny_db_time, in_zone, new_york_now, parse_date,
    parse_date_time, trading_hours_wait, until_nyse_trading_hours_end,
    until_nyse_trading_hours_start, until_tomorrow, utc_now, utc_until_tomorrow, Date, Duration,
    UtcTime, ZonedTime,
};

fn utc_time<Tz: TimeZone>(dt: &DateTime<Tz>) -> UtcTime {
    UtcTime::new(dt.timestamp(), dt.timestamp_subsec_nanos()).unwrap()
}

fn zoned_time(dt: &DateTime<chrono_tz::Tz>) -> ZonedTime {
    in_zone(utc_time(dt), "America/New_York").unwrap()
}

fn pseudo_date(hours_offset: u32) -> DateTime<Utc> {
    NaiveDate::from_ymd_opt(2022, 1, 23)
        .unwrap()
        .and_hms_milli_opt(hours_offset, 0, 0, 0)
        .unwrap()
        .and_local_timezone(Utc)
        .unwrap()
}

#[test]
fn until_tomorrow_test() {
    let hours = 18;
    let dt = pseudo_date(hours);
    let ut = until_tomorrow(utc_time(&dt)).unwrap();

    assert_eq!(ut, Duration::hours(24i64 - hours as i64));
}

#[test]
fn summer_time() {
    let hours = 4;
    let dt = NaiveDate::from_ymd_opt(2023, 8, 28)
        .unwrap()
        .and_hms_milli_opt(hours, 30, 0, 0)
        .unwrap()
        .and_local_timezone(Utc)
        .unwrap();
    let until_start = until_nyse_trading_hours_start(utc_time(&dt)).unwrap();
    // utc in daylight saving time: -4 hours -> 9:30 eastern time is 13:30 utc:
    assert_eq!(until_start, Duration::hours(13i64 - hours as i64));
}

#[test]
fn until_nyse_end() {
    // before end of nyse trading hours:
    let hours = 14;
    let naive_dt = NaiveDate::from_ymd_opt(2022, 1, 19)
        .unwrap()
        .and_hms_opt(hours, 0, 0)
        .unwrap();
    let ny_aware = New_York.from_local_datetime(&naive_dt).unwrap();
    let dt: DateTime<Utc> = ny_aware.with_timezone(&Utc);
    let until_end = until_nyse_trading_hours_end(utc_time(&dt)).unwrap();
    assert_eq!(until_end, Duration::hours(16i64 - hours as i64));

    // after end of nyse trading hours:
    let hours = 20;
    let naive_dt = NaiveDate::from_ymd_opt(2038, 1, 19)
        .unwrap()
        .and_hms_opt(hours, 0, 0)
        .unwrap();
    let ny_aware = New_York.from_local_datetime(&naive_dt).unwrap();
    let dt = ny_aware.with_timezone(&Utc);
    let until_end = until_nyse_trading_hours_end(utc_time(&dt)).unwrap();
    assert_eq!(until_end, Duration::hours(24 - hours as i64 + 16));
}

#[test]
fn until_nyse_start() {
    // before start of nyse trading hours:
    let hours = 8;
    let naive_dt = NaiveDate::from_ymd_opt(2022, 1, 19)
        .unwrap()
        .and_hms_opt(hours, 0, 0)
        .unwrap();
    let ny_aware = New_York.from_local_datetime(&naive_dt).unwrap();
    let dt = ny_aware.with_timezone(&Utc);
    let until_end = until_nyse_trading_hours_start(utc_time(&dt)).unwrap();
    assert_eq!(
        until_end,
        Duration::hours(9 - hours as i64)
            .checked_add(Duration::minutes(30))
            .unwrap()
    );

    // after start of nyse trading hours:
    let hours = 10;
    let naive_dt = NaiveDate::from_ymd_opt(2038, 1, 19)
        .unwrap()
        .and_hms_opt(hours, 0, 0)
        .unwrap();
    let ny_aware = New_York.from_local_datetime(&naive_dt).unwrap();
    let dt = ny_aware.with_timezone(&Utc);
    let until_end = until_nyse_trading_hours_start(utc_time(&dt)).unwrap();
    assert_eq!(
        until_end,
        Duration::hours(24 - hours as i64 + 9)
            .checked_add(Duration::minutes(30))
            .unwrap()
    );
}

#[test]
fn current_datetime() {
    let now = utc_now();
    let now = DateTime::from_timestamp(now.secs, now.nanos)
        .unwrap()
        .trunc_subsecs(1);
    assert_eq!(
        now,
        chrono::offset::Local::now()
            .with_timezone(&Utc)
            .trunc_subsecs(1)
    );
}

#[test]
fn date_formatting() {
    // without daylight saving time:
    let hours = 14;
    let months = 1;
    let hours_offset = 5;
    let ny_hours = hours - hours_offset;
    let dt = NaiveDate::from_ymd_opt(2023, months, 28)
        .unwrap()
        .and_hms_milli_opt(hours, 8, 1, 0)
        .unwrap()
        .and_local_timezone(Utc)
        .unwrap()
        .with_timezone(&New_York);

    let db_time_rgx =
        Regex::new("^[0-9]{4}-[0-9]{2}-[0-9]{2}T[0-9]{2}:[0-9]{2}:[0-9]{2}$").unwrap();

    let frmtd = format_db_time(&zoned_time(&dt)).unwrap();

    assert!(db_time_rgx.is_match(&frmtd[..]));
    assert_eq!(
        &frmtd[..],
        &format!("2023-{:02}-28T{:02}:08:01", months, ny_hours)[..]
    );

    let months = 8;
    let hours_offset = 4;
    let ny_hours = hours - hours_offset;

    let dt = NaiveDate::from_ymd_opt(2023, months, 28)
        .unwrap()
        .and_hms_milli_opt(hours, 8, 1, 0)
        .unwrap()
        .and_local_timezone(Utc)
        .unwrap()
        .with_timezone(&New_York);

    let frmtd = format_db_time(&zoned_time(&dt)).unwrap();

    assert!(db_time_rgx.is_match(&frmtd[..]));
    assert_eq!(
        &frmtd[..],
        &format!("2023-{:02}-28T{:02}:08:01", months, ny_hours)[..]
    );

    let ny_time = formatted_ny_db_time().unwrap();
    assert!(db_time_rgx.is_match(&ny_time[..]));

    let from = "2024-03-28T00:00:00";
    let dt = parse_date_time(from).unwrap();
    let frmtd = format_naive_daytime(&dt).unwrap();

    assert!(db_time_rgx.is_match(&frmtd[..]));

    let from = "2024-04-16";
    let dt = parse_date(from).unwrap();
    assert_eq!(dt.year(), 2024);
    assert_eq!(dt.month(), 4);
    assert_eq!(dt.day(), 16);
    assert_eq!(&dt.to_string().unwrap()[..], from);
}

#[test]
fn naive_daytime_is_written_as_it_was_read() {
    let dt = parse_date_time("2024-03-28T09:30:15").unwrap();
    assert_eq!(dt.secs, 1_711_618_215);
    assert_eq!(dt.nanos, 0);
    assert_eq!(format_naive_daytime(&dt).unwrap(), "2024-03-28T09:30:15");
}

#[test]
fn date_time_without_time_is_refused() {
    let failure = parse_date_time("2024-03-28").unwrap_err();
    assert_eq!(failure.kind, FailureKind::Validation);
    assert!(failure.message.starts_with("Invalid date format 2024-03-28: "));
}

#[test]
fn parse_date_reads_the_first_ten_bytes() {
    let date = parse_date("2023-08-31T09:30:00").unwrap();
    assert_eq!(date, Date { year: 2023, month: 8, day: 31 });
}

#[test]
fn parse_date_refuses_a_short_text() {
    let failure = parse_date("2023-08").unwrap_err();
    assert_eq!(failure.kind, FailureKind::Validation);
    assert_eq!(
        failure.message,
        "Invalid date format (too short) - expected '2006-12-31', got '2023-08'"
    );
}

#[test]
fn parse_date_refuses_a_cut_inside_a_character() {
    // the tenth byte lies inside the two bytes of the last character
    let failure = parse_date("2023-08-3\u{e9}").unwrap_err();
    assert_eq!(
        failure.message,
        "Invalid date format (too short) - expected '2006-12-31', got '2023-08-3\u{e9}'"
    );
}

#[test]
fn parse_date_refuses_what_is_no_date() {
    let failure = parse_date("2023-02-30 and more").unwrap_err();
    assert_eq!(failure.kind, FailureKind::Validation);
    assert!(failure.message.starts_with("Invalid date format 2023-02-30: "));
    let failure = parse_date("yesterday!").unwrap_err();
    assert!(failure.message.starts_with("Invalid date format yesterday!: "));
}

#[test]
fn period_durations() {
    assert_eq!(Duration::from(Period::Year), Duration::days(365));
    assert_eq!(Duration::from(Period::SemiAnnual), Duration::days(180));
    assert_eq!(Duration::from(Period::Quarter), Duration::days(90));
    assert_eq!(Duration::from(Period::Month), Duration::days(30));
    assert_eq!(Duration::from(Period::Week), Duration::days(7));
    assert_eq!(Duration::from(Period::Day), Duration::days(1));
    assert_eq!(Duration::from(Period::Hour), Duration::hours(1));
    assert_eq!(Duration::from(Period::Minute), Duration::minutes(1));
    assert_eq!(Duration::from(Period::Hour).nanos, 3_600_000_000_000);
    assert_eq!(Duration::from(Period::Minute).nanos, 60_000_000_000);
    assert_eq!(Duration::days(1).nanos, 86_400_000_000_000);
}

#[test]
fn period_codes() {
    assert_eq!(Period::from(0), Period::Year);
    assert_eq!(Period::from(1), Period::SemiAnnual);
    assert_eq!(Period::from(2), Period::Quarter);
    assert_eq!(Period::from(3), Period::Month);
    assert_eq!(Period::from(4), Period::Week);
    assert_eq!(Period::from(5), Period::Day);
    assert_eq!(Period::from(6), Period::Hour);
    assert_eq!(Period::from(7), Period::Minute);
    assert_eq!(Period::from(8), Period::Month);
    assert_eq!(Period::from(u32::MAX), Period::Month);
    assert_eq!(Period::Minute.code(), 7);
    assert_eq!(Period::Year.code(), 0);
}

#[test]
fn whole_days_of_a_span() {
    assert_eq!(Duration::days(30).num_days(), 30);
    assert_eq!(Duration::hours(47).num_days(), 1);
    assert_eq!(Duration::hours(-47).num_days(), -1);
    assert_eq!(Duration::minutes(1).num_days(), 0);
    assert_eq!(Duration { nanos: i64::MIN }.num_days(), -106_751);
    assert_eq!(Duration::zero().num_days(), 0);
}

#[test]
fn spans_add_up_or_overflow() {
    assert_eq!(
        Duration::hours(1).checked_add(Duration::minutes(30)),
        Some(Duration { nanos: 5_400_000_000_000 })
    );
    assert_eq!(Duration { nanos: i64::MAX }.checked_add(Duration { nanos: 1 }), None);
}

#[test]
fn date_steps_back_over_whole_days() {
    let end = Date { year: 2024, month: 1, day: 31 };
    assert_eq!(
        end.minus(Duration::from(Period::Month)),
        Some(Date { year: 2024, month: 1, day: 1 })
    );
    assert_eq!(
        end.minus(Duration::from(Period::Year)),
        Some(Date { year: 2023, month: 1, day: 31 })
    );
    assert_eq!(end.minus(Duration::from(Period::Hour)), Some(end));
    assert_eq!(end.minus(Duration::from(Period::Minute)), Some(end));
    assert_eq!(
        Date { year: 2024, month: 3, day: 1 }.minus(Duration::days(1)),
        Some(Date { year: 2024, month: 2, day: 29 })
    );
}

#[test]
fn what_is_no_day_has_no_day_before_it_and_no_text() {
    let no_day = Date { year: 2023, month: 2, day: 30 };
    assert_eq!(no_day.minus(Duration::days(1)), None);
    assert_eq!(no_day.to_string(), None);
    assert_eq!(Date { year: -262_143, month: 1, day: 1 }.minus(Duration::days(1)), None);
}

#[test]
fn date_is_written_with_leading_zeros() {
    assert_eq!(Date { year: 987, month: 6, day: 5 }.to_string().unwrap(), "0987-06-05");
}

#[test]
fn instants_keep_their_nanoseconds_below_a_second() {
    assert_eq!(UtcTime::new(5, 999_999_999), Some(UtcTime { secs: 5, nanos: 999_999_999 }));
    assert_eq!(UtcTime::new(5, 1_000_000_000), None);
}

#[test]
fn until_tomorrow_before_noon_looks_back() {
    let dt = pseudo_date(6);
    assert_eq!(until_tomorrow(utc_time(&dt)).unwrap(), Duration::hours(-6));
    let midnight = pseudo_date(0);
    assert_eq!(until_tomorrow(utc_time(&midnight)).unwrap(), Duration::zero());
}

#[test]
fn instants_beyond_the_calendar_are_refused() {
    let far = UtcTime { secs: i64::MAX, nanos: 0 };
    let failure = until_tomorrow(far).unwrap_err();
    assert_eq!(failure.kind, FailureKind::Validation);
    assert_eq!(failure.message, "instant out of the range of the calendar");
    assert!(until_nyse_trading_hours_start(far).is_err());
    assert!(until_nyse_trading_hours_end(far).is_err());
    assert!(trading_hours_wait(far).is_err());
    assert!(in_zone(far, "America/New_York").is_err());
    assert!(format_db_time(&ZonedTime { utc: far, offset: 0 }).is_err());
}

#[test]
fn instants_near_the_ends_of_the_calendar_are_refused() {
    // chrono holds this instant, in the year 258648, but it lies too near the end
    let near_end = UtcTime { secs: 8_100_000_000_000, nanos: 0 };
    assert!(DateTime::from_timestamp(near_end.secs, 0).is_some());
    assert!(format_db_time(&ZonedTime { utc: near_end, offset: 3600 }).is_err());
    assert!(until_nyse_trading_hours_end(near_end).is_err());
    // the last instant that is handed on is too far from 1970 for a day's start in nanoseconds
    let last = UtcTime { secs: 8_000_000_000_000, nanos: 0 };
    assert!(until_nyse_trading_hours_end(last).is_err());
    assert_eq!(
        format_db_time(&ZonedTime { utc: last, offset: 3600 }).unwrap(),
        "+255479-11-28T15:13:20"
    );
}

#[test]
fn unknown_zone_is_refused() {
    assert!(in_zone(UtcTime { secs: 0, nanos: 0 }, "Atlantis/Capital").is_err());
}

#[test]
fn new_york_offsets() {
    let winter = NaiveDate::from_ymd_opt(2023, 1, 28).unwrap().and_hms_opt(14, 0, 0).unwrap().and_utc();
    assert_eq!(in_zone(utc_time(&winter), "America/New_York").unwrap().offset, -5 * 3600);
    let summer = NaiveDate::from_ymd_opt(2023, 8, 28).unwrap().and_hms_opt(14, 0, 0).unwrap().and_utc();
    assert_eq!(in_zone(utc_time(&summer), "America/New_York").unwrap().offset, -4 * 3600);
}

#[test]
fn wait_for_trading_hours() {
    // 08:00 in New York: the exchange opens in an hour and a half
    let early = New_York
        .from_local_datetime(&NaiveDate::from_ymd_opt(2022, 1, 19).unwrap().and_hms_opt(8, 0, 0).unwrap())
        .unwrap();
    assert_eq!(
        trading_hours_wait(utc_time(&early)).unwrap(),
        Duration { nanos: 5_400_000_000_000 }
    );
    // 12:00 in New York: the exchange is open
    let noon = New_York
        .from_local_datetime(&NaiveDate::from_ymd_opt(2022, 1, 19).unwrap().and_hms_opt(12, 0, 0).unwrap())
        .unwrap();
    assert_eq!(trading_hours_wait(utc_time(&noon)).unwrap(), Duration::zero());
    // 20:00 in New York: it opens tomorrow, before it closes
    let late = New_York
        .from_local_datetime(&NaiveDate::from_ymd_opt(2022, 1, 19).unwrap().and_hms_opt(20, 0, 0).unwrap())
        .unwrap();
    assert_eq!(
        trading_hours_wait(utc_time(&late)).unwrap(),
        Duration::hours(13).checked_add(Duration::minutes(30)).unwrap()
    );
}

#[test]
fn nyse_times_at_the_boundaries() {
    // exactly 16:00 in New York: the wait is zero, not a day
    let close = New_York
        .from_local_datetime(&NaiveDate::from_ymd_opt(2022, 1, 19).unwrap().and_hms_opt(16, 0, 0).unwrap())
        .unwrap();
    assert_eq!(until_nyse_trading_hours_end(utc_time(&close)).unwrap(), Duration::zero());
    // one nanosecond later the next close is a day less a nanosecond away
    let after = UtcTime { secs: close.timestamp(), nanos: 1 };
    assert_eq!(
        until_nyse_trading_hours_end(after).unwrap(),
        Duration { nanos: 86_400_000_000_000 - 1 }
    );
}

#[test]
fn the_present_is_in_range() {
    assert!(utc_until_tomorrow().is_ok());
    let now = new_york_now().unwrap();
    assert!(now.offset == -5 * 3600 || now.offset == -4 * 3600);
    assert!(now.utc.nanos < 1_000_000_000);
}

//! Dates, instants and spans of time, and the trading hours of the New York
//! Stock Exchange.

pub mod clock;
pub mod date;
pub mod outside;
pub mod span;

pub use clock::{
    format_db_time, format_naive_daytime, formatted_ny_db_time, in_zone, new_york_now,
    parse_date_time, trading_hours_wait, until_nyse_trading_hours_end,
    until_nyse_trading_hours_start, until_tomorrow, utc_now, utc_until_tomorrow, NaiveDateTime,
    UtcTime, ZonedTime,
};
pub use date::{parse_date, Date};
pub use span::Duration;

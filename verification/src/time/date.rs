//! Days of the calendar.
//!
//! The calendar itself is chrono's: parsing a date, stepping back over a
//! number of days and writing a date out are calls into that crate. What is
//! decided around those calls is verified here.

use crate::error::{Failure, FailureKind};
use crate::time::outside::{
    date_before, date_display, date_minus_days, date_text, parse_date_with, parsed_date,
};
use crate::time::span::Duration;
use vstd::prelude::*;
use vstd::string::StringExecFns;
use vstd::utf8::{decode_utf8, encode_utf8, is_char_boundary};

verus! {

/// How a date is written: year, month and day with `-` between them.
pub const DATE_FORMAT: &'static str = "%Y-%m-%d";

/// A day of the calendar, by its year, month and day of the month.
#[derive(Debug, Clone, Copy, PartialEq, Eq, Structural)]
pub struct Date {
    pub year: i32,
    pub month: u32,
    pub day: u32,
}

impl Date {
    pub fn year(&self) -> (y: i32)
        ensures
            y == self.year,
    {
        self.year
    }

    pub fn month(&self) -> (m: u32)
        ensures
            m == self.month,
    {
        self.month
    }

    pub fn day(&self) -> (d: u32)
        ensures
            d == self.day,
    {
        self.day
    }

    /// The date as text, `None` where the three numbers name no day.
    pub fn to_string(&self) -> (r: Option<String>)
        ensures
            match r {
                Some(t) => date_display(self.year as int, self.month as int, self.day as int)
                    == Some(t@),
                None => date_display(self.year as int, self.month as int, self.day as int)
                    is None,
            },
    {
        date_text(self.year, self.month, self.day)
    }

    /// The date that lies the span's whole days before `self`.
    pub open spec fn spec_minus(self, span: Duration) -> Option<Date> {
        match date_before(
            self.year as int,
            self.month as int,
            self.day as int,
            span.spec_num_days(),
        ) {
            Some((year, month, day)) => Some(Date { year, month, day }),
            None => None,
        }
    }

    /// Steps back over the whole days of `span`; what is left of the span
    /// below a day is dropped. `None` where chrono's calendar has no such day.
    pub fn minus(&self, span: Duration) -> (r: Option<Date>)
        ensures
            r == self.spec_minus(span),
    {
        match date_minus_days(self.year, self.month, self.day, span.num_days()) {
            Some((year, month, day)) => Some(Date { year, month, day }),
            None => None,
        }
    }
}

/// The first ten bytes of `text` as text of their own, where `text` has ten
/// bytes and the tenth ends a character.
pub open spec fn date_head(text: Seq<char>) -> Option<Seq<char>> {
    let bytes = encode_utf8(text);
    if is_char_boundary(bytes, 10) {
        Some(decode_utf8(bytes.subrange(0, 10)))
    } else {
        None
    }
}

/// The message for a text whose first ten bytes are no date.
pub open spec fn invalid_date_message(head: Seq<char>, reason: Seq<char>) -> Seq<char> {
    "Invalid date format "@ + head + ": "@ + reason
}

/// The message for a text that has no first ten bytes to read.
pub open spec fn short_date_message(text: Seq<char>) -> Seq<char> {
    "Invalid date format (too short) - expected '2006-12-31', got '"@ + text + "'"@
}

/// What `parse_date` returns for `text`: the date, or the message of the
/// failure.
pub open spec fn spec_parse_date(text: Seq<char>) -> Result<Date, Seq<char>> {
    match date_head(text) {
        Some(head) => match parsed_date(head, DATE_FORMAT@) {
            Ok((year, month, day)) => Ok(Date { year, month, day }),
            Err(reason) => Err(invalid_date_message(head, reason)),
        },
        None => Err(short_date_message(text)),
    }
}

/// Reads a date written like `2023-08-31` from the first ten bytes of `d`;
/// what follows them is ignored.
pub fn parse_date(d: &str) -> (r: Result<Date, Failure>)
    ensures
        match r {
            Ok(date) => spec_parse_date(d@) == Ok::<Date, Seq<char>>(date),
            Err(f) => f.kind == FailureKind::Validation && spec_parse_date(d@) == Err::<
                Date,
                Seq<char>,
            >(f.message@),
        },
{
    if d.is_char_boundary(10) {
        let (head, _) = d.split_at(10);
        proof {
            vstd::utf8::encode_utf8_decode_utf8(head@);
        }
        match parse_date_with(head, DATE_FORMAT) {
            Ok((year, month, day)) => Ok(Date { year, month, day }),
            Err(reason) => {
                let mut message = String::from_str("Invalid date format ");
                message.append(head);
                message.append(": ");
                message.append(reason.as_str());
                Err(Failure::validation(message))
            },
        }
    } else {
        let mut message = String::from_str(
            "Invalid date format (too short) - expected '2006-12-31', got '",
        );
        message.append(d);
        message.append("'");
        Err(Failure::validation(message))
    }
}

} // verus!

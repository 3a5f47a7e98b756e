//! Calendar dates and times of day, as plain numbers.
//!
//! The library reads a date only for its year and carries every other date and
//! time through unchanged, so both are held field by field. The one text that
//! is parsed here is the time at which a purchase was processed.

use crate::error::Error;
use chrono::{Datelike, NaiveDateTime, Timelike};
use vstd::prelude::*;

verus! {

/// A calendar date: year, month of the year and day of the month.
#[derive(Clone, Copy, Debug, PartialEq, Eq, Structural)]
pub struct Date {
    pub year: i32,
    pub month: u32,
    pub day: u32,
}

/// A date with a time of day. A leap second is written as second 59 with a
/// `nanosecond` of a thousand million or more.
#[derive(Clone, Copy, Debug, PartialEq, Eq, Structural)]
pub struct Timestamp {
    pub date: Date,
    pub hour: u32,
    pub minute: u32,
    pub second: u32,
    pub nanosecond: u32,
}

/// How the time of processing of a purchase is written: year, month and day
/// with hyphens between them, a space, then hour, minute and second with colons.
pub const PROCESSED_AT_FORMAT: &'static str = "%Y-%m-%d %H:%M:%S";

/// The year of a date, where there is a date.
pub open spec fn year_of(date: Option<Date>) -> Option<i32> {
    match date {
        Some(d) => Some(d.year),
        None => None,
    }
}

/// The year in which a person was born, where the date of birth is known.
pub fn birth_year(birth_date: Option<Date>) -> (year: Option<i32>)
    ensures
        year == year_of(birth_date),
{
    match birth_date {
        Some(date) => Some(date.year),
        None => None,
    }
}

/// chrono's error for a text that it could not read as a date and time.
#[verifier::external_type_specification]
#[verifier::external_body]
pub struct ExParseError(chrono::ParseError);

/// What chrono's `NaiveDateTime::parse_from_str` makes of `text` under
/// `format`: the date and time it reads, field by field, or `None` where it
/// refuses the text.
pub uninterp spec fn chrono_datetime(text: Seq<char>, format: Seq<char>) -> Option<Timestamp>;

/// Calls chrono's `NaiveDateTime::parse_from_str`, and copies the fields of
/// the date and time it returns. The contract claims only that the outcome is
/// the one that `chrono_datetime` names for this text and format.
#[verifier::external_body]
fn parse_datetime(text: &str, format: &str) -> (parsed: Result<Timestamp, chrono::ParseError>)
    ensures
        match parsed {
            Ok(timestamp) => chrono_datetime(text@, format@) == Some(timestamp),
            Err(_) => chrono_datetime(text@, format@) is None,
        },
{
    let read = NaiveDateTime::parse_from_str(text, format)?;
    Ok(
        Timestamp {
            date: Date { year: read.year(), month: read.month(), day: read.day() },
            hour: read.hour(),
            minute: read.minute(),
            second: read.second(),
            nanosecond: read.nanosecond(),
        },
    )
}

/// What `parse_processed_at` returns for what chrono made of the text.
pub open spec fn processed_at_of(parsed: Option<Timestamp>) -> Result<Timestamp, Error> {
    match parsed {
        Some(timestamp) => Ok(timestamp),
        None => Err(Error::MalformedTimestamp),
    }
}

/// Reads the time at which a purchase was processed.
///
/// The text is handed to chrono with `PROCESSED_AT_FORMAT`. What chrono reads
/// is returned as it is; a text that chrono refuses is a malformed timestamp.
pub fn parse_processed_at(text: &str) -> (processed_at: Result<Timestamp, Error>)
    ensures
        processed_at == processed_at_of(chrono_datetime(text@, PROCESSED_AT_FORMAT@)),
{
    match parse_datetime(text, PROCESSED_AT_FORMAT) {
        Ok(timestamp) => Ok(timestamp),
        Err(_) => Err(Error::MalformedTimestamp),
    }
}

} // verus!

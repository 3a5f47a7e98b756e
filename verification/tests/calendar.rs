use deidentify::calendar::{birth_year, parse_processed_at, Date, Timestamp, PROCESSED_AT_FORMAT};
use deidentify::error::Error;

fn timestamp(year: i32, month: u32, day: u32, hour: u32, minute: u32, second: u32) -> Timestamp {
    Timestamp { date: Date { year, month, day }, hour, minute, second, nanosecond: 0 }
}

#[test]
fn reads_a_time_of_processing() {
    assert_eq!(parse_processed_at("2015-09-05 23:56:04"), Ok(timestamp(2015, 9, 5, 23, 56, 4)));
    assert_eq!(parse_processed_at("1999-12-31 00:00:00"), Ok(timestamp(1999, 12, 31, 0, 0, 0)));
    assert_eq!(parse_processed_at("2020-02-29 12:30:45"), Ok(timestamp(2020, 2, 29, 12, 30, 45)));
}

#[test]
fn reads_a_leap_second_as_second_fifty_nine() {
    let read = parse_processed_at("2015-06-30 23:59:60");
    assert_eq!(
        read,
        Ok(Timestamp {
            date: Date { year: 2015, month: 6, day: 30 },
            hour: 23,
            minute: 59,
            second: 59,
            nanosecond: 1_000_000_000,
        })
    );
}

#[test]
fn refuses_a_text_in_another_form() {
    assert_eq!(parse_processed_at("2015-09-05T23:56:04"), Err(Error::MalformedTimestamp));
    assert_eq!(parse_processed_at("2015-09-05"), Err(Error::MalformedTimestamp));
    assert_eq!(parse_processed_at("05/09/2015 23:56:04"), Err(Error::MalformedTimestamp));
    assert_eq!(parse_processed_at(""), Err(Error::MalformedTimestamp));
    assert_eq!(parse_processed_at("2015-09-05 23:56:04 UTC"), Err(Error::MalformedTimestamp));
}

#[test]
fn refuses_a_time_that_does_not_exist() {
    assert_eq!(parse_processed_at("2015-02-30 10:00:00"), Err(Error::MalformedTimestamp));
    assert_eq!(parse_processed_at("2015-13-01 10:00:00"), Err(Error::MalformedTimestamp));
    assert_eq!(parse_processed_at("2015-09-05 24:00:00"), Err(Error::MalformedTimestamp));
    assert_eq!(parse_processed_at("2015-09-05 23:60:00"), Err(Error::MalformedTimestamp));
}

#[test]
fn the_format_is_year_month_day_hour_minute_second() {
    assert_eq!(PROCESSED_AT_FORMAT, "%Y-%m-%d %H:%M:%S");
}

#[test]
fn the_year_of_birth_is_the_year_of_the_date() {
    assert_eq!(birth_year(Some(Date { year: 1990, month: 5, day: 4 })), Some(1990));
    assert_eq!(birth_year(Some(Date { year: -44, month: 3, day: 15 })), Some(-44));
    assert_eq!(birth_year(None), None);
}

//! Timestamps and dates as text. The calendar is chrono's: this module asks
//! chrono to parse, and decides what becomes of the answer.

use crate::batch::{Cell, CellView};
use crate::schema::TimeUnit;
use vstd::prelude::*;

verus! {

/// An instant that chrono parsed, without a time zone: the milliseconds since
/// the first instant of 1970, and the nanoseconds since then where 64 bits
/// hold them.
#[derive(Clone, Copy, Debug, PartialEq, Eq, Structural)]
pub struct ParsedInstant {
    pub millis: i64,
    pub nanos: Option<i64>,
}

/// The latest instant, in milliseconds, that a timestamp column takes. A later
/// one becomes a null cell.
pub const MAX_TIMESTAMP_MILLIS: i64 = 4611686018427;

/// The day count that chrono gives the first day of 1970: days since the last
/// day of the year 1 BCE.
pub const EPOCH_DAYS_FROM_CE: i64 = 719163;

/// What `chrono::NaiveDateTime::parse_from_str` makes of `text` under `format`:
/// nothing if it fails, else the instant.
pub uninterp spec fn datetime_parsed(text: Seq<char>, format: Seq<char>) -> Option<ParsedInstant>;

/// What `chrono::NaiveDate::parse_from_str` makes of `text` under `format`:
/// nothing if it fails, else the date's `num_days_from_ce`.
pub uninterp spec fn date_parsed(text: Seq<char>, format: Seq<char>) -> Option<i32>;

/// Calls `chrono::NaiveDateTime::parse_from_str` and, on the date and time it
/// returns, `and_utc` with `DateTime::timestamp_millis` and
/// `DateTime::timestamp_nanos_opt`. The contract claims only that the answer is
/// a function of the two texts.
#[verifier::external_body]
pub(crate) fn parse_datetime(text: &str, format: &str) -> (r: Option<ParsedInstant>)
    ensures
        r == datetime_parsed(text@, format@),
{
    match chrono::NaiveDateTime::parse_from_str(text, format) {
        Ok(t) => Some(
            ParsedInstant {
                millis: t.and_utc().timestamp_millis(),
                nanos: t.and_utc().timestamp_nanos_opt(),
            },
        ),
        Err(_) => None,
    }
}

/// Calls `chrono::NaiveDate::parse_from_str` and, on the date it returns,
/// `chrono::Datelike::num_days_from_ce`. The contract claims only that the
/// answer is a function of the two texts.
#[verifier::external_body]
pub(crate) fn parse_date(text: &str, format: &str) -> (r: Option<i32>)
    ensures
        r == date_parsed(text@, format@),
{
    match chrono::NaiveDate::parse_from_str(text, format) {
        Ok(d) => Some(chrono::Datelike::num_days_from_ce(&d)),
        Err(_) => None,
    }
}

/// The first of three answers that is one.
pub open spec fn first_some<T>(a: Option<T>, b: Option<T>, c: Option<T>) -> Option<T> {
    if a is Some {
        a
    } else if b is Some {
        b
    } else {
        c
    }
}

/// The instant that `text` writes as a timestamp: the formats are tried in
/// order, date and time parted by `T` with a fraction of a second, parted by a
/// blank with a fraction, parted by `T` without one, and the first that
/// matches wins.
pub open spec fn timestamp_parsed(text: Seq<char>) -> Option<ParsedInstant> {
    first_some(
        datetime_parsed(text, "%Y-%m-%dT%H:%M:%S.%f"@),
        datetime_parsed(text, "%Y-%m-%d %H:%M:%S.%f"@),
        datetime_parsed(text, "%Y-%m-%dT%H:%M:%S"@),
    )
}

/// The day count of the date that `text` writes: year, month and day, or
/// these followed by a time of midnight.
pub open spec fn date_days_parsed(text: Seq<char>) -> Option<i32> {
    match date_parsed(text, "%Y-%m-%d"@) {
        Some(d) => Some(d),
        None => date_parsed(text, "%Y-%m-%dT00:00:00.000"@),
    }
}

/// The cell that an instant becomes in a timestamp column of precision `unit`:
/// null if it is later than the column takes or, counted in nanoseconds, does
/// not fit 64 bits.
pub open spec fn instant_cell_spec(instant: ParsedInstant, unit: TimeUnit) -> CellView {
    if instant.millis > MAX_TIMESTAMP_MILLIS {
        CellView::Null
    } else if unit == TimeUnit::Nanosecond {
        match instant.nanos {
            Some(n) => CellView::TimestampNanosecond(n),
            None => CellView::Null,
        }
    } else {
        CellView::TimestampMillisecond(instant.millis)
    }
}

/// The cell that a date becomes, given its day count from the year 1: the days
/// since the first day of 1970, or null where 32 bits do not hold them.
pub open spec fn date_cell_spec(days_from_ce: i32) -> CellView {
    let days = days_from_ce - EPOCH_DAYS_FROM_CE;
    if i32::MIN <= days && days <= i32::MAX {
        CellView::Date32(days as i32)
    } else {
        CellView::Null
    }
}

/// Reads `text` as a timestamp.
pub fn parse_timestamp(text: &str) -> (r: Option<ParsedInstant>)
    ensures
        r == timestamp_parsed(text@),
{
    match parse_datetime(text, "%Y-%m-%dT%H:%M:%S.%f") {
        Some(t) => Some(t),
        None => match parse_datetime(text, "%Y-%m-%d %H:%M:%S.%f") {
            Some(t) => Some(t),
            None => parse_datetime(text, "%Y-%m-%dT%H:%M:%S"),
        },
    }
}

/// Reads `text` as a date and gives its day count from the year 1.
pub fn parse_date_days(text: &str) -> (r: Option<i32>)
    ensures
        r == date_days_parsed(text@),
{
    match parse_date(text, "%Y-%m-%d") {
        Some(d) => Some(d),
        None => parse_date(text, "%Y-%m-%dT00:00:00.000"),
    }
}

/// The cell that an instant becomes in a timestamp column.
pub fn instant_cell(instant: ParsedInstant, unit: TimeUnit) -> (r: Cell)
    ensures
        r@ == instant_cell_spec(instant, unit),
{
    if instant.millis > MAX_TIMESTAMP_MILLIS {
        Cell::Null
    } else if unit == TimeUnit::Nanosecond {
        match instant.nanos {
            Some(n) => Cell::TimestampNanosecond(n),
            None => Cell::Null,
        }
    } else {
        Cell::TimestampMillisecond(instant.millis)
    }
}

/// The cell that a date becomes, given its day count from the year 1.
pub fn date_cell(days_from_ce: i32) -> (r: Cell)
    ensures
        r@ == date_cell_spec(days_from_ce),
{
    let wide: i64 = days_from_ce as i64;
    let days: i64 = wide - EPOCH_DAYS_FROM_CE;
    if days < -2147483648 || days > 2147483647 {
        Cell::Null
    } else {
        Cell::Date32(days as i32)
    }
}

} // verus!

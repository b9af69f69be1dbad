//! The calendar, as `chrono` keeps it.
//!
//! A date is held as its day number: the days counted from January 1 of the
//! year 1, which is day 1, in the Gregorian calendar extended backward.
use chrono::Datelike;
use vstd::prelude::*;

verus! {

/// The error that `chrono` gives for a text that is no date.
#[verifier::external_type_specification]
#[verifier::external_body]
pub struct ExParseError(chrono::ParseError);

/// The day number of a calendar date, where the date exists and `chrono` can
/// hold it.
pub uninterp spec fn day_number(year: i32, month: u32, day: u32) -> Option<i32>;

/// The day number of the date that is written in `text` as year, month and day
/// with hyphens between them, where `chrono` reads one there.
pub uninterp spec fn written_day_number(text: Seq<char>) -> Option<i32>;

/// The current year of the local calendar: `chrono::Local::now()`, then `year()`
/// of `chrono::Datelike`. The result depends on the clock and the time zone of
/// the machine, so nothing is claimed of it.
#[verifier::external_body]
pub(crate) fn this_year() -> i32 {
    chrono::Local::now().year()
}

/// The day number of a calendar date: `chrono::NaiveDate::from_ymd_opt`, then
/// `num_days_from_ce()` of `chrono::Datelike`. `None` where the date does not
/// exist or is outside the years that `chrono` holds. The result is named, not
/// described.
#[verifier::external_body]
pub(crate) fn day_of(year: i32, month: u32, day: u32) -> (r: Option<i32>)
    ensures
        r == day_number(year, month, day),
{
    match chrono::NaiveDate::from_ymd_opt(year, month, day) {
        Some(date) => Some(date.num_days_from_ce()),
        None => None,
    }
}

/// The day number of a date written as in `2024-01-31`:
/// `chrono::NaiveDate::parse_from_str` with the format `%Y-%m-%d`, then
/// `num_days_from_ce()` of `chrono::Datelike`. The result is named, not
/// described; an error is returned exactly where the name has no day number.
#[verifier::external_body]
pub(crate) fn read_day(text: &str) -> (r: Result<i32, chrono::ParseError>)
    ensures
        match r {
            Ok(day) => written_day_number(text@) == Some(day),
            Err(_) => written_day_number(text@) is None,
        },
{
    match chrono::NaiveDate::parse_from_str(text, "%Y-%m-%d") {
        Ok(date) => Ok(date.num_days_from_ce()),
        Err(error) => Err(error),
    }
}

} // verus!

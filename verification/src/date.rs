//! Calendar dates and the permissive date parser.

use chrono::Datelike;
use chrono::NaiveDate;
use vstd::prelude::*;
use vstd::string::*;

verus! {

/// A day of the proleptic Gregorian calendar, held as plain numbers.
#[derive(Clone, Copy, Debug, PartialEq, Eq, Structural)]
pub struct CalendarDate {
    pub year: i32,
    pub month: u32,
    pub day: u32,
}

impl CalendarDate {
    /// The month and the day are in the ranges that a calendar knows.
    pub open spec fn in_range(&self) -> bool {
        1 <= self.month <= 12 && 1 <= self.day <= 31
    }
}

/// A text that is a date in neither accepted format.
#[derive(Debug)]
pub struct DateParseError {
    /// The text as it was handed in.
    pub text: String,
}

impl View for DateParseError {
    type V = Seq<char>;

    open spec fn view(&self) -> Seq<char> {
        self.text@
    }
}

/// The error that `chrono` reports for a text that does not parse.
#[verifier::external_type_specification]
#[verifier::external_body]
pub struct ExParseError(chrono::ParseError);

/// The date that `chrono::NaiveDate::parse_from_str` reads from `text` under
/// the strftime pattern `format`, or `None` where it reports an error.
pub uninterp spec fn chrono_date(text: Seq<char>, format: Seq<char>) -> Option<CalendarDate>;

/// The pattern tried first: year, month and day between slashes.
pub open spec fn slash_format() -> Seq<char> {
    "%Y/%m/%d"@
}

/// The pattern tried second: year, month and day between hyphens.
pub open spec fn hyphen_format() -> Seq<char> {
    "%Y-%m-%d"@
}

/// What the permissive parser makes of the two readings of `text`: the
/// slashed one where there is one, else the hyphenated one, else the error
/// that names `text`.
pub open spec fn first_reading(
    slashed: Option<CalendarDate>,
    hyphenated: Option<CalendarDate>,
    text: Seq<char>,
) -> Result<CalendarDate, Seq<char>> {
    match slashed {
        Some(date) => Ok(date),
        None => match hyphenated {
            Some(date) => Ok(date),
            None => Err(text),
        },
    }
}

/// The date or the failure as the contracts of this module speak of them.
pub open spec fn reading_view(r: Result<CalendarDate, DateParseError>) -> Result<
    CalendarDate,
    Seq<char>,
> {
    match r {
        Ok(date) => Ok(date),
        Err(e) => Err(e@),
    }
}

/// Calls `chrono::NaiveDate::parse_from_str` and hands the date back as
/// year, month and day (`Datelike::year`, `month`, `day`). The call depends
/// on its two arguments alone, so its outcome has the name `chrono_date`.
/// Of a date that was read, `chrono` documents that the month is between 1
/// and 12 and the day between 1 and 31.
#[verifier::external_body]
fn parse_with_format(text: &str, format: &str) -> (r: Result<CalendarDate, chrono::ParseError>)
    ensures
        match r {
            Ok(date) => chrono_date(text@, format@) == Some(date) && date.in_range(),
            Err(_) => chrono_date(text@, format@).is_none(),
        },
{
    NaiveDate::parse_from_str(text, format).map(
        |d| CalendarDate { year: d.year(), month: d.month(), day: d.day() },
    )
}

/// Settles one reading of `text`: the date where there is one, else the
/// error that names `text`.
pub fn date_or_error(reading: Result<CalendarDate, chrono::ParseError>, text: &str) -> (r: Result<
    CalendarDate,
    DateParseError,
>)
    ensures
        match reading {
            Ok(date) => r == Ok::<CalendarDate, DateParseError>(date),
            Err(_) => r matches Err(e) && e@ == text@,
        },
{
    match reading {
        Ok(date) => Ok(date),
        Err(_) => Err(DateParseError { text: String::from_str(text) }),
    }
}

/// Reads `date` as `YYYY/MM/DD`, and where that fails as `YYYY-MM-DD`. The
/// first reading that succeeds is the result; no other format is tried. A
/// text that is neither comes back in the error.
pub fn parse_date_permissive(date: &str) -> (r: Result<CalendarDate, DateParseError>)
    ensures
        reading_view(r) == first_reading(
            chrono_date(date@, slash_format()),
            chrono_date(date@, hyphen_format()),
            date@,
        ),
        r matches Ok(d) ==> d.in_range(),
{
    match parse_with_format(date, "%Y/%m/%d") {
        Ok(found) => Ok(found),
        Err(_) => date_or_error(parse_with_format(date, "%Y-%m-%d"), date),
    }
}

} // verus!

//! Calendar dates as the flat files write them and as the store keeps them.

use chrono::Datelike;
use vstd::prelude::*;

verus! {

/// How the flat files write a date: month, day, year.
pub const FCC_FORMAT: &'static str = "%m/%d/%Y";

/// How the store keeps a date: year, month, day.
pub const SQL_FORMAT: &'static str = "%Y-%m-%d";

/// A day of the proleptic Gregorian calendar.
#[derive(Clone, Copy, Debug, PartialEq, Eq, PartialOrd, Ord, Hash, Structural)]
pub struct Date {
    pub year: i32,
    pub month: u32,
    pub day: u32,
}

/// Why a field is no date.
#[derive(Clone, Copy, Debug, PartialEq, Eq, Structural)]
pub enum DateError {
    /// The text does not write a day of the calendar in the flat files'
    /// notation.
    Unreadable,
}

/// `chrono::ParseError`, the reason why the calendar library refuses a
/// text. It is carried through unopened.
#[verifier::external_type_specification]
#[verifier::external_body]
pub struct ExParseError(chrono::ParseError);

/// The day that `text` writes when read by the pattern `format`, as
/// `chrono::NaiveDate::parse_from_str` reads it; `None` where it refuses.
pub uninterp spec fn written_date(text: Seq<char>, format: Seq<char>) -> Option<Date>;

/// The text that writes the day `year`-`month`-`day` by the pattern `format`,
/// as `chrono::NaiveDate::format` writes it; `None` where
/// `chrono::NaiveDate::from_ymd_opt` knows no such day.
pub uninterp spec fn date_text(year: int, month: int, day: int, format: Seq<char>) -> Option<
    Seq<char>,
>;

/// Reads a day with `chrono::NaiveDate::parse_from_str`. The call reads
/// `text` by `format` and answers with the day or with its own error; the
/// answer depends on the two texts alone.
#[verifier::external_body]
fn parse_date(text: &str, format: &str) -> (r: Result<Date, chrono::ParseError>)
    ensures
        r is Ok <==> written_date(text@, format@) is Some,
        r is Ok ==> written_date(text@, format@) == Some(r->Ok_0),
{
    match chrono::NaiveDate::parse_from_str(text, format) {
        Ok(d) => Ok(Date { year: d.year(), month: d.month(), day: d.day() }),
        Err(e) => Err(e),
    }
}

/// Writes a day with `chrono::NaiveDate::format`, after
/// `chrono::NaiveDate::from_ymd_opt` has made the day from its three
/// numbers. Only the store's pattern is admitted, which names the year, the
/// month and the day and nothing that a bare date lacks.
#[verifier::external_body]
fn format_date(date: Date, format: &str) -> (r: Option<String>)
    requires
        format@ == SQL_FORMAT@,
    ensures
        r is Some <==> date_text(date.year as int, date.month as int, date.day as int, format@)
            is Some,
        r is Some ==> date_text(date.year as int, date.month as int, date.day as int, format@)
            == Some(r->0@),
{
    match chrono::NaiveDate::from_ymd_opt(date.year, date.month, date.day) {
        Some(d) => Some(d.format(format).to_string()),
        None => None,
    }
}

/// What `serialize` gives for a date, over what the calendar library writes
/// for it.
pub open spec fn sql_text(date: Option<Date>) -> Option<Seq<char>> {
    match date {
        None => Some(Seq::empty()),
        Some(d) => date_text(d.year as int, d.month as int, d.day as int, SQL_FORMAT@),
    }
}

/// What `deserialize` gives for a field, over what the calendar library
/// reads from it.
pub open spec fn field_date(text: Seq<char>) -> Result<Option<Date>, DateError> {
    if text.len() == 0 {
        Ok(None)
    } else {
        match written_date(text, FCC_FORMAT@) {
            Some(d) => Ok(Some(d)),
            None => Err(DateError::Unreadable),
        }
    }
}

/// The text under which the store keeps a date: the empty text for no date,
/// else year, month and day. `None` for three numbers that are no day of the
/// calendar.
pub fn serialize(date: &Option<Date>) -> (r: Option<String>)
    ensures
        r is Some <==> sql_text(*date) is Some,
        r is Some ==> sql_text(*date) == Some(r->0@),
{
    match date {
        None => Some(String::new()),
        Some(d) => format_date(*d, SQL_FORMAT),
    }
}

/// The date in a field of a flat file: none for the empty field, else the
/// day that the field writes as month/day/year.
pub fn deserialize(text: &str) -> (r: Result<Option<Date>, DateError>)
    ensures
        r == field_date(text@),
{
    if text.is_empty() {
        Ok(None)
    } else {
        match parse_date(text, FCC_FORMAT) {
            Ok(d) => Ok(Some(d)),
            Err(_) => Err(DateError::Unreadable),
        }
    }
}

} // verus!

//! Calendar dates as plain numbers, read from text by `chrono`.

use vstd::prelude::*;
use chrono::Datelike;

verus! {

/// A calendar date: year, month and day of the month.
#[derive(Clone, Copy, Debug, PartialEq, Eq, Structural)]
pub struct Date {
    pub year: i32,
    pub month: u32,
    pub day: u32,
}

/// What `chrono` reads from a text as a date, as year, month and day, or
/// `None` where it reads no date.
pub uninterp spec fn date_from_text(s: Seq<char>) -> Option<(i32, u32, u32)>;

/// `NaiveDate::from_str` of `chrono`, with the date that it reads handed
/// out as year, month and day. The contract only names the result: the
/// same text always reads as the same date.
#[verifier::external_body]
fn naive_date_from_str(s: &str) -> (r: Option<(i32, u32, u32)>)
    ensures
        r == date_from_text(s@),
{
    match s.parse::<chrono::NaiveDate>() {
        Ok(d) => Some((d.year(), d.month(), d.day())),
        Err(_) => None,
    }
}

/// The date that was read, if one was.
pub open spec fn date_of(parts: Option<(i32, u32, u32)>) -> Option<Date> {
    match parts {
        Some(p) => Some(Date { year: p.0, month: p.1, day: p.2 }),
        None => None,
    }
}

impl Date {
    /// The date that was read as year, month and day, if one was.
    pub fn from_parts(parts: Option<(i32, u32, u32)>) -> (r: Option<Date>)
        ensures
            r == date_of(parts),
    {
        match parts {
            Some(p) => Some(Date { year: p.0, month: p.1, day: p.2 }),
            None => None,
        }
    }

    /// Reads a date in the form `year-month-day`.
    pub fn parse(s: &str) -> (r: Option<Date>)
        ensures
            r == date_of(date_from_text(s@)),
    {
        Date::from_parts(naive_date_from_str(s))
    }
}

} // verus!

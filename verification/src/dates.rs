//! Calendar dates as plain values, today's date, and the reading of stored
//! expiry texts.

use crate::text::{decimal_text, int_to_string, lemma_decimal_text_injective};
use chrono::Datelike;
use vstd::prelude::*;

verus! {

/// The earliest year a calendar date can carry.
pub const MIN_YEAR: i32 = -262143;

/// The latest year a calendar date can carry.
pub const MAX_YEAR: i32 = 262142;

/// The latest year whose plain decimal form is read back as a year.
pub const MAX_PLAIN_YEAR: i32 = 9999;

/// A day of the proleptic Gregorian calendar.
#[derive(Clone, Copy, Debug, PartialEq, Eq, Structural)]
pub struct Date {
    pub year: i32,
    pub month: u32,
    pub day: u32,
}

impl Date {
    /// Year, month and day are each within the calendar's range.
    pub open spec fn wf(self) -> bool {
        &&& MIN_YEAR <= self.year <= MAX_YEAR
        &&& 1 <= self.month <= 12
        &&& 1 <= self.day <= 31
    }

    /// `self` is a strictly earlier day than `other`.
    pub open spec fn before(self, other: Date) -> bool {
        ||| self.year < other.year
        ||| (self.year == other.year && self.month < other.month)
        ||| (self.year == other.year && self.month == other.month && self.day < other.day)
    }

    /// Tests whether `self` is a strictly earlier day than `other`.
    pub fn is_before(&self, other: &Date) -> (r: bool)
        ensures
            r == self.before(*other),
    {
        if self.year != other.year {
            self.year < other.year
        } else if self.month != other.month {
            self.month < other.month
        } else {
            self.day < other.day
        }
    }
}

/// January 1st of `year`.
pub open spec fn year_start(year: int) -> Date {
    Date { year: year as i32, month: 1, day: 1 }
}

/// The text `-01-01` that follows the year in a January 1st date.
pub open spec fn january_first_suffix() -> Seq<char> {
    seq!['-', '0', '1', '-', '0', '1']
}

/// The stored form of January 1st of `year`: the year in plain decimal, then `-01-01`.
pub open spec fn year_start_text(year: int) -> Seq<char> {
    decimal_text(year) + january_first_suffix()
}

/// `text` is the stored form of January 1st of `year`, and `year` is one
/// that reads back from its plain decimal form.
pub open spec fn names_year_start(text: Seq<char>, year: int) -> bool {
    &&& MIN_YEAR <= year <= MAX_PLAIN_YEAR
    &&& text == year_start_text(year)
}

/// What `chrono::NaiveDate::parse_from_str` with the format `%Y-%m-%d` makes of
/// a text: the date as year, month and day, or `None` where it reports an error.
pub uninterp spec fn parsed_date(text: Seq<char>) -> Option<Date>;

/// The date that a stored expiry text stands for, if any.
///
/// The stored form of a January 1st is read as that day. Every other text is
/// read as the date parser reads it.
pub open spec fn date_of_text(text: Seq<char>) -> Option<Date> {
    if exists|year: int| names_year_start(text, year) {
        Some(year_start(choose|year: int| names_year_start(text, year)))
    } else {
        parsed_date(text)
    }
}

/// The stored form of January 1st names one year only.
pub proof fn lemma_year_start_text_injective(a: int, b: int)
    requires
        year_start_text(a) == year_start_text(b),
    ensures
        a == b,
{
    let ta = year_start_text(a);
    let tb = year_start_text(b);
    assert(decimal_text(a) =~= ta.subrange(0, ta.len() - 6));
    assert(decimal_text(b) =~= tb.subrange(0, tb.len() - 6));
    lemma_decimal_text_injective(a, b);
}

/// The stored form of January 1st of a readable year stands for that day.
pub proof fn lemma_date_of_year_start_text(year: int)
    requires
        MIN_YEAR <= year <= MAX_PLAIN_YEAR,
    ensures
        date_of_text(year_start_text(year)) == Some(year_start(year)),
{
    let text = year_start_text(year);
    assert(names_year_start(text, year));
    let chosen = choose|y: int| names_year_start(text, y);
    lemma_year_start_text_injective(chosen, year);
}

/// Reads the clock: `chrono::Local::now()`, then `date_naive()`, taken apart
/// into year, month and day. The contract claims only that the three numbers
/// are within the calendar's range, as the date type documents.
#[verifier::external_body]
pub(crate) fn today() -> (d: Date)
    ensures
        d.wf(),
{
    let now = chrono::Local::now().date_naive();
    Date { year: now.year(), month: now.month(), day: now.day() }
}

/// Calls `chrono::NaiveDate::parse_from_str(text, "%Y-%m-%d")` and takes the
/// date apart into year, month and day; an error becomes `None`.
///
/// The contract claims that the result depends on the text alone, and that a
/// year from -262143 to 9999 in plain decimal followed by `-01-01` is read as
/// January 1st of that year. Of every other text it only names the result.
#[verifier::external_body]
pub(crate) fn parse_date(text: &str) -> (r: Option<Date>)
    ensures
        r == date_of_text(text@),
        (forall|year: int| !names_year_start(text@, year)) ==> r == parsed_date(text@),
{
    match chrono::NaiveDate::parse_from_str(text, "%Y-%m-%d") {
        Ok(d) => Some(Date { year: d.year(), month: d.month(), day: d.day() }),
        Err(_) => None,
    }
}

/// Writes the stored form of January 1st of `year`.
pub fn year_start_string(year: i64) -> (r: String)
    ensures
        r@ == year_start_text(year as int),
{
    proof {
        reveal_strlit("-01-01");
    }
    int_to_string(year).concat("-01-01")
}

} // verus!

//! Days of the calendar, ranges of days, and dates written `YYYY-MM-DD`.

use chrono::{Datelike, NaiveDate};
use vstd::prelude::*;

verus! {

/// The first year that a date can lie in.
pub const MIN_YEAR: i32 = -262_143;

/// The last year that a date can lie in.
pub const MAX_YEAR: i32 = 262_142;

/// Whether `year` has a 29th of February in the proleptic Gregorian calendar.
pub open spec fn is_leap_year(year: int) -> bool {
    year % 4 == 0 && (year % 100 != 0 || year % 400 == 0)
}

/// The number of days of `month` in `year`, for a month from 1 to 12.
pub open spec fn days_in_month(year: int, month: int) -> int {
    if month == 2 {
        if is_leap_year(year) {
            29
        } else {
            28
        }
    } else if month == 4 || month == 6 || month == 9 || month == 11 {
        30
    } else {
        31
    }
}

/// Whether the calendar has a day `day` of month `month` in `year`.
pub open spec fn is_calendar_date(year: int, month: int, day: int) -> bool {
    1 <= month <= 12 && 1 <= day <= days_in_month(year, month)
}

/// A day of the proleptic Gregorian calendar, without a time zone.
#[derive(Clone, Copy, Debug, PartialEq, Eq, Structural)]
pub struct CalendarDate {
    pub year: i32,
    pub month: u32,
    pub day: u32,
}

impl CalendarDate {
    /// The fields name a day that the calendar has, in a year that dates
    /// reach.
    pub open spec fn is_valid(self) -> bool {
        &&& MIN_YEAR <= self.year <= MAX_YEAR
        &&& is_calendar_date(self.year as int, self.month as int, self.day as int)
    }

    /// `self` is an earlier day than `other`.
    pub open spec fn precedes(self, other: CalendarDate) -> bool {
        ||| self.year < other.year
        ||| self.year == other.year && self.month < other.month
        ||| self.year == other.year && self.month == other.month && self.day < other.day
    }

    /// `self` is the same day as `other` or an earlier one.
    pub open spec fn not_after(self, other: CalendarDate) -> bool {
        self == other || self.precedes(other)
    }

    /// The day that follows `self`.
    pub open spec fn day_after(self) -> CalendarDate {
        if self.day < days_in_month(self.year as int, self.month as int) {
            CalendarDate { year: self.year, month: self.month, day: (self.day + 1) as u32 }
        } else if self.month < 12 {
            CalendarDate { year: self.year, month: (self.month + 1) as u32, day: 1 }
        } else {
            CalendarDate { year: (self.year + 1) as i32, month: 1, day: 1 }
        }
    }

    /// The day that `self` follows.
    pub open spec fn day_before(self) -> CalendarDate {
        if self.day > 1 {
            CalendarDate { year: self.year, month: self.month, day: (self.day - 1) as u32 }
        } else if self.month > 1 {
            CalendarDate {
                year: self.year,
                month: (self.month - 1) as u32,
                day: days_in_month(self.year as int, self.month - 1) as u32,
            }
        } else {
            CalendarDate { year: (self.year - 1) as i32, month: 12, day: 31 }
        }
    }

    /// Whether `self` is the same day as `other` or an earlier one.
    pub fn is_not_after(&self, other: &CalendarDate) -> (answer: bool)
        ensures
            answer == self.not_after(*other),
    {
        if self.year != other.year {
            self.year < other.year
        } else if self.month != other.month {
            self.month < other.month
        } else {
            self.day <= other.day
        }
    }
}

/// The days from `start` to `end`, both included. Nothing asks that `start`
/// is not after `end`: a range the wrong way round holds no day.
#[derive(Clone, Copy, Debug, PartialEq, Eq, Structural)]
pub struct DateRange {
    pub start: CalendarDate,
    pub end: CalendarDate,
}

impl DateRange {
    /// Both ends are days of the calendar.
    pub open spec fn is_valid(self) -> bool {
        self.start.is_valid() && self.end.is_valid()
    }

    /// `date` is one of the days of the range.
    pub open spec fn includes(self, date: CalendarDate) -> bool {
        self.start.not_after(date) && date.not_after(self.end)
    }

    /// Whether `date` is one of the days of the range.
    pub fn contains(&self, date: &CalendarDate) -> (answer: bool)
        ensures
            answer == self.includes(*date),
    {
        self.start.is_not_after(date) && date.is_not_after(&self.end)
    }
}

/// `c` is one of the digits `0` to `9`.
pub open spec fn is_digit(c: char) -> bool {
    '0' <= c && c <= '9'
}

/// The number that a digit stands for.
pub open spec fn digit_value(c: char) -> int {
    c as int - '0' as int
}

/// `text` is written `YYYY-MM-DD`: four digits, a hyphen, two digits, a
/// hyphen, two digits, and nothing else.
pub open spec fn is_date_text(text: Seq<char>) -> bool {
    &&& text.len() == 10
    &&& is_digit(text[0])
    &&& is_digit(text[1])
    &&& is_digit(text[2])
    &&& is_digit(text[3])
    &&& text[4] == '-'
    &&& is_digit(text[5])
    &&& is_digit(text[6])
    &&& text[7] == '-'
    &&& is_digit(text[8])
    &&& is_digit(text[9])
}

/// The year that a text of the form `YYYY-MM-DD` gives.
pub open spec fn text_year(text: Seq<char>) -> int {
    1000 * digit_value(text[0]) + 100 * digit_value(text[1]) + 10 * digit_value(text[2])
        + digit_value(text[3])
}

/// The month that a text of the form `YYYY-MM-DD` gives.
pub open spec fn text_month(text: Seq<char>) -> int {
    10 * digit_value(text[5]) + digit_value(text[6])
}

/// The day of the month that a text of the form `YYYY-MM-DD` gives.
pub open spec fn text_day(text: Seq<char>) -> int {
    10 * digit_value(text[8]) + digit_value(text[9])
}

/// The date that `text` denotes: `text` is written `YYYY-MM-DD` and the
/// calendar has that day. Any other text denotes none.
pub open spec fn date_of_text(text: Seq<char>) -> Option<CalendarDate> {
    if is_date_text(text) && is_calendar_date(text_year(text), text_month(text), text_day(text)) {
        Some(
            CalendarDate {
                year: text_year(text) as i32,
                month: text_month(text) as u32,
                day: text_day(text) as u32,
            },
        )
    } else {
        None
    }
}

fn digit_at(text: &str, index: usize) -> (answer: bool)
    requires
        index < text@.len(),
    ensures
        answer == is_digit(text@[index as int]),
{
    let c = text.get_char(index);
    '0' <= c && c <= '9'
}

fn hyphen_at(text: &str, index: usize) -> (answer: bool)
    requires
        index < text@.len(),
    ensures
        answer == (text@[index as int] == '-'),
{
    text.get_char(index) == '-'
}

/// Whether `text` has the form `YYYY-MM-DD`.
pub fn is_well_formed(text: &str) -> (answer: bool)
    ensures
        answer == is_date_text(text@),
{
    text.unicode_len() == 10 && digit_at(text, 0) && digit_at(text, 1) && digit_at(text, 2)
        && digit_at(text, 3) && hyphen_at(text, 4) && digit_at(text, 5) && digit_at(text, 6)
        && hyphen_at(text, 7) && digit_at(text, 8) && digit_at(text, 9)
}

/// `chrono::format::ParseError`, the error of chrono's parsers. Nothing is
/// read of it.
#[verifier::external_type_specification]
#[verifier::external_body]
pub struct ExParseError(chrono::format::ParseError);

/// `chrono::NaiveDate::parse_from_str` with the format `%Y-%m-%d`, on a text
/// of the form `YYYY-MM-DD`. Not proved: that it reads the three numbers as
/// the digits give them, that it succeeds exactly when the calendar has that
/// day, and that the date it returns has those three numbers as its year,
/// month and day.
#[verifier::external_body]
fn parse_from_str(text: &str) -> (parsed: Result<CalendarDate, chrono::format::ParseError>)
    requires
        is_date_text(text@),
    ensures
        parsed is Ok <==> is_calendar_date(text_year(text@), text_month(text@), text_day(text@)),
        parsed matches Ok(date) ==> date.year == text_year(text@) && date.month == text_month(
            text@,
        ) && date.day == text_day(text@),
{
    match NaiveDate::parse_from_str(text, "%Y-%m-%d") {
        Ok(date) => Ok(CalendarDate { year: date.year(), month: date.month(), day: date.day() }),
        Err(error) => Err(error),
    }
}

/// Reads a date written `YYYY-MM-DD`.
pub fn parse_date(text: &str) -> (date: Option<CalendarDate>)
    ensures
        date == date_of_text(text@),
{
    if !is_well_formed(text) {
        return None;
    }
    match parse_from_str(text) {
        Ok(date) => Some(date),
        Err(_) => None,
    }
}

/// A date read from a text is a day of the calendar, in a year from 0 to
/// 9999, and its year, month and day are the numbers written in the text.
pub proof fn lemma_date_of_text_is_exact(text: Seq<char>)
    requires
        date_of_text(text) is Some,
    ensures
        date_of_text(text)->0.is_valid(),
        0 <= date_of_text(text)->0.year <= 9999,
        date_of_text(text)->0.year == text_year(text),
        date_of_text(text)->0.month == text_month(text),
        date_of_text(text)->0.day == text_day(text),
{
}

/// The first and the last day of a range that is the right way round lie in
/// it; the day before its first and the day after its last do not.
pub proof fn lemma_range_boundary(range: DateRange)
    requires
        range.is_valid(),
    ensures
        range.start.not_after(range.end) ==> range.includes(range.start) && range.includes(
            range.end,
        ),
        !range.includes(range.start.day_before()),
        !range.includes(range.end.day_after()),
{
}

} // verus!

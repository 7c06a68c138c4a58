//! The two date arguments of a run.

use crate::date::{
    date_of_text, is_calendar_date, is_date_text, lemma_date_of_text_is_exact, parse_date, text_day,
    text_month, text_year, CalendarDate,
};
use crate::error::{AssignmentError, DateField};
use vstd::prelude::*;

verus! {

/// The two date arguments of a run, as they were typed.
#[derive(Clone, Debug)]
pub struct ParsedData {
    start_date: String,
    end_date: String,
}

/// The first and the last day that two date arguments denote, or the error
/// that names the first argument which denotes none.
pub open spec fn dates_of(start: Seq<char>, end: Seq<char>) -> Result<
    (CalendarDate, CalendarDate),
    AssignmentError,
> {
    match (date_of_text(start), date_of_text(end)) {
        (Some(first), Some(last)) => Ok((first, last)),
        (None, _) => Err(AssignmentError::StringToDateParseError(DateField::Start)),
        (Some(_), None) => Err(AssignmentError::StringToDateParseError(DateField::End)),
    }
}

impl ParsedData {
    /// The start date as typed.
    pub closed spec fn start_text(&self) -> Seq<char> {
        self.start_date@
    }

    /// The end date as typed.
    pub closed spec fn end_text(&self) -> Seq<char> {
        self.end_date@
    }

    /// Holds the two arguments as they were typed.
    pub fn new(start_date: String, end_date: String) -> (data: ParsedData)
        ensures
            data.start_text() == start_date@,
            data.end_text() == end_date@,
    {
        ParsedData { start_date, end_date }
    }

    /// Reads both arguments as dates written `YYYY-MM-DD`.
    pub fn parse_data_to_date(&self) -> (dates: Result<
        (CalendarDate, CalendarDate),
        AssignmentError,
    >)
        ensures
            dates == dates_of(self.start_text(), self.end_text()),
            dates matches Ok((start, end)) ==> start.is_valid() && end.is_valid(),
    {
        let start = match parse_date(self.start_date.as_str()) {
            Some(date) => date,
            None => {
                return Err(AssignmentError::StringToDateParseError(DateField::Start));
            },
        };
        match parse_date(self.end_date.as_str()) {
            Some(end) => Ok((start, end)),
            None => Err(AssignmentError::StringToDateParseError(DateField::End)),
        }
    }

    /// The start date as typed.
    pub fn start_date(&self) -> (text: &str)
        ensures
            text@ == self.start_text(),
    {
        self.start_date.as_str()
    }

    /// The end date as typed.
    pub fn end_date(&self) -> (text: &str)
        ensures
            text@ == self.end_text(),
    {
        self.end_date.as_str()
    }
}

/// `text` is written `YYYY-MM-DD` and names a day that the calendar has.
pub open spec fn names_a_day(text: Seq<char>) -> bool {
    is_date_text(text) && is_calendar_date(text_year(text), text_month(text), text_day(text))
}

/// Two arguments that each name a day give exactly those two days.
pub proof fn lemma_days_are_read_as_written(start: Seq<char>, end: Seq<char>)
    requires
        names_a_day(start),
        names_a_day(end),
    ensures
        dates_of(start, end) matches Ok((first, last)) && first.year == text_year(start)
            && first.month == text_month(start) && first.day == text_day(start) && last.year
            == text_year(end) && last.month == text_month(end) && last.day == text_day(end),
{
    lemma_date_of_text_is_exact(start);
    lemma_date_of_text_is_exact(end);
}

/// One argument that names no day fails the pair, with the error for dates.
pub proof fn lemma_other_texts_are_refused(start: Seq<char>, end: Seq<char>)
    requires
        !names_a_day(start) || !names_a_day(end),
    ensures
        dates_of(start, end) matches Err(AssignmentError::StringToDateParseError(_)),
{
}

} // verus!

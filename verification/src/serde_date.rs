//! The text form of a temple's day of dedication.

use vstd::prelude::*;
use crate::calendar::CalendarDate;
use crate::timestamps::{formatted_date, parsed_date, read_date, write_date};

verus! {

/// The form a day of dedication is written in, such as `6 April 1893`.
pub const LONG_DATE: &'static str = "[day padding:none] [month repr:long] [year]";

/// Writes a day of dedication as day, month name and year; nothing where the
/// directory gives no day.
pub fn serialize(date: &Option<CalendarDate>) -> (text: Option<String>)
    requires
        date matches Some(d) ==> d.wf(),
    ensures
        match *date {
            Some(d) => match text {
                Some(t) => formatted_date(d.year as int, d.month as int, d.day as int, LONG_DATE@)
                    == Some(t@),
                None => formatted_date(d.year as int, d.month as int, d.day as int, LONG_DATE@)
                    is None,
            },
            None => text is None,
        },
{
    match date {
        Some(d) => write_date(*d, LONG_DATE),
        None => None,
    }
}

/// Reads a day of dedication; a text that is no date reads as no day.
pub fn deserialize(v: &str) -> (date: Option<CalendarDate>)
    ensures
        date == parsed_date(v@, LONG_DATE@),
        date matches Some(d) ==> d.wf(),
{
    read_date(v, LONG_DATE)
}

} // verus!

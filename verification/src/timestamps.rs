//! Reading and writing dates and times in a described form, by way of the
//! `time` crate.
//!
//! A description is a text such as `[hour]:[minute]`, in the first version
//! of the crate's format language. A description that the crate does not
//! accept reads and writes nothing.

use vstd::prelude::*;
use crate::calendar::{CalendarDate, ClockTime, LocalDateTime};

verus! {

/// The date that `time` reads from `text` under `description`, if any.
pub uninterp spec fn parsed_date(text: Seq<char>, description: Seq<char>) -> Option<CalendarDate>;

/// The time of day that `time` reads from `text` under `description`, if any.
pub uninterp spec fn parsed_clock_time(text: Seq<char>, description: Seq<char>) -> Option<
    ClockTime,
>;

/// The date and time that `time` reads from `text` under `description`, if
/// any.
pub uninterp spec fn parsed_date_time(text: Seq<char>, description: Seq<char>) -> Option<
    LocalDateTime,
>;

/// What `time` reads from an RFC 3339 timestamp: the local date and time and
/// the offset from UTC in seconds; `None` where it reads nothing.
pub uninterp spec fn parsed_rfc3339(text: Seq<char>) -> Option<(LocalDateTime, i32)>;

/// How `time` writes the date of these parts under `description`, if at all.
pub uninterp spec fn formatted_date(year: int, month: int, day: int, description: Seq<char>)
    -> Option<Seq<char>>;

/// How `time` writes the time of day of these parts under `description`, if
/// at all.
pub uninterp spec fn formatted_clock_time(
    hour: int,
    minute: int,
    second: int,
    description: Seq<char>,
) -> Option<Seq<char>>;

/// `time::Date::parse`, under the description that
/// `time::format_description::parse_borrowed` makes of `description`. What
/// is read is a day that exists.
#[verifier::external_body]
pub(crate) fn read_date(text: &str, description: &str) -> (result: Option<CalendarDate>)
    ensures
        result == parsed_date(text@, description@),
        result matches Some(d) ==> d.wf(),
{
    let format = time::format_description::parse_borrowed::<1>(description).ok()?;
    let d = time::Date::parse(text, &format).ok()?;
    Some(CalendarDate { year: d.year(), month: u8::from(d.month()), day: d.day() })
}

/// `time::Time::parse`, under the description that
/// `time::format_description::parse_borrowed` makes of `description`. What
/// is read is a time of day.
#[verifier::external_body]
pub(crate) fn read_clock_time(text: &str, description: &str) -> (result: Option<ClockTime>)
    ensures
        result == parsed_clock_time(text@, description@),
        result matches Some(t) ==> t.wf(),
{
    let format = time::format_description::parse_borrowed::<1>(description).ok()?;
    let t = time::Time::parse(text, &format).ok()?;
    Some(ClockTime { hour: t.hour(), minute: t.minute(), second: t.second() })
}

/// `time::PrimitiveDateTime::parse`, under the description that
/// `time::format_description::parse_borrowed` makes of `description`. What
/// is read is a day that exists and a time of day.
#[verifier::external_body]
pub(crate) fn read_date_time(text: &str, description: &str) -> (result: Option<LocalDateTime>)
    ensures
        result == parsed_date_time(text@, description@),
        result matches Some(t) ==> t.date.wf() && t.time.wf(),
{
    let format = time::format_description::parse_borrowed::<1>(description).ok()?;
    let t = time::PrimitiveDateTime::parse(text, &format).ok()?;
    Some(LocalDateTime {
        date: CalendarDate { year: t.year(), month: u8::from(t.month()), day: t.day() },
        time: ClockTime { hour: t.hour(), minute: t.minute(), second: t.second() },
    })
}

/// `time::OffsetDateTime::parse` with the well-known RFC 3339 format. What is
/// read is a day that exists, a time of day, and the offset in whole seconds.
#[verifier::external_body]
pub(crate) fn read_rfc3339(text: &str) -> (result: Option<(LocalDateTime, i32)>)
    ensures
        result == parsed_rfc3339(text@),
        result matches Some(t) ==> t.0.date.wf() && t.0.time.wf(),
{
    let format = time::format_description::well_known::Rfc3339;
    let t = time::OffsetDateTime::parse(text, &format).ok()?;
    let local = LocalDateTime {
        date: CalendarDate { year: t.year(), month: u8::from(t.month()), day: t.day() },
        time: ClockTime { hour: t.hour(), minute: t.minute(), second: t.second() },
    };
    Some((local, t.offset().whole_seconds()))
}

/// `time::Date::format`, on the date that `time::Date::from_calendar_date`
/// builds from the three fields, under the description that
/// `time::format_description::parse_borrowed` makes of `description`.
#[verifier::external_body]
pub(crate) fn write_date(date: CalendarDate, description: &str) -> (text: Option<String>)
    requires
        date.wf(),
    ensures
        text matches Some(t) ==> formatted_date(
            date.year as int,
            date.month as int,
            date.day as int,
            description@,
        ) == Some(t@),
        text is None ==> formatted_date(
            date.year as int,
            date.month as int,
            date.day as int,
            description@,
        ) is None,
{
    let format = time::format_description::parse_borrowed::<1>(description).ok()?;
    let month = time::Month::try_from(date.month).ok()?;
    let day = time::Date::from_calendar_date(date.year, month, date.day).ok()?;
    day.format(&format).ok()
}

/// `time::Time::format`, on the time that `time::Time::from_hms` builds from
/// the three fields, under the description that
/// `time::format_description::parse_borrowed` makes of `description`.
#[verifier::external_body]
pub(crate) fn write_clock_time(time: ClockTime, description: &str) -> (text: Option<String>)
    requires
        time.wf(),
    ensures
        text matches Some(t) ==> formatted_clock_time(
            time.hour as int,
            time.minute as int,
            time.second as int,
            description@,
        ) == Some(t@),
        text is None ==> formatted_clock_time(
            time.hour as int,
            time.minute as int,
            time.second as int,
            description@,
        ) is None,
{
    let format = time::format_description::parse_borrowed::<1>(description).ok()?;
    let clock = time::Time::from_hms(time.hour, time.minute, time.second).ok()?;
    clock.format(&format).ok()
}

} // verus!

//! Calendar dates and clock times as plain integers.

use vstd::prelude::*;

verus! {

/// The earliest year a [`CalendarDate`] may hold.
pub const MIN_YEAR: i32 = -9999;

/// The latest year a [`CalendarDate`] may hold.
pub const MAX_YEAR: i32 = 9999;

/// Whether `year` is a leap year of the proleptic Gregorian calendar.
pub open spec fn is_leap_year(year: int) -> bool {
    year % 4 == 0 && (year % 100 != 0 || year % 400 == 0)
}

/// The number of days of `month` (1 to 12) in `year`; 0 for any other month.
pub open spec fn days_in_month(year: int, month: int) -> int {
    if month == 2 {
        if is_leap_year(year) {
            29
        } else {
            28
        }
    } else if month == 4 || month == 6 || month == 9 || month == 11 {
        30
    } else if 1 <= month <= 12 {
        31
    } else {
        0
    }
}

/// A day of the proleptic Gregorian calendar.
#[derive(Clone, Copy, Debug, PartialEq, Eq, Structural)]
pub struct CalendarDate {
    pub year: i32,
    /// 1 for January up to 12 for December.
    pub month: u8,
    pub day: u8,
}

/// A time of day without an offset.
#[derive(Clone, Copy, Debug, PartialEq, Eq, Structural)]
pub struct ClockTime {
    pub hour: u8,
    pub minute: u8,
    pub second: u8,
}

/// A date and a time of day without an offset.
#[derive(Clone, Copy, Debug, PartialEq, Eq, Structural)]
pub struct LocalDateTime {
    pub date: CalendarDate,
    pub time: ClockTime,
}

impl ClockTime {
    /// Whether the fields name a time of day.
    pub open spec fn wf(&self) -> bool {
        self.hour < 24 && self.minute < 60 && self.second < 60
    }
}

impl CalendarDate {
    /// Whether the fields name a day that exists, within the supported years.
    pub open spec fn wf(&self) -> bool {
        &&& MIN_YEAR <= self.year <= MAX_YEAR
        &&& 1 <= self.month <= 12
        &&& 1 <= self.day <= days_in_month(self.year as int, self.month as int)
    }

    /// Whether this is the last day of its month.
    pub open spec fn is_month_end(&self) -> bool {
        self.day as int == days_in_month(self.year as int, self.month as int)
    }

    /// The day after this one; `None` on the last day of the last year.
    pub open spec fn successor(&self) -> Option<CalendarDate> {
        if !self.is_month_end() {
            Some(CalendarDate { year: self.year, month: self.month, day: (self.day + 1) as u8 })
        } else if self.month < 12 {
            Some(CalendarDate { year: self.year, month: (self.month + 1) as u8, day: 1 })
        } else if self.year < MAX_YEAR {
            Some(CalendarDate { year: (self.year + 1) as i32, month: 1, day: 1 })
        } else {
            None
        }
    }

    /// The day `k` days after this one, if the calendar reaches that far.
    pub open spec fn plus_days(&self, k: nat) -> Option<CalendarDate>
        decreases k,
    {
        if k == 0 {
            Some(*self)
        } else {
            match self.plus_days((k - 1) as nat) {
                Some(d) => d.successor(),
                None => None,
            }
        }
    }

    /// Builds a date from its parts, or `None` where no such day exists.
    pub fn new(year: i32, month: u8, day: u8) -> (result: Option<CalendarDate>)
        ensures
            result == (if (CalendarDate { year, month, day }).wf() {
                Some(CalendarDate { year, month, day })
            } else {
                None::<CalendarDate>
            }),
    {
        if year < MIN_YEAR || year > MAX_YEAR || month < 1 || month > 12 || day < 1 {
            return None;
        }
        if day > month_length(year, month) {
            return None;
        }
        Some(CalendarDate { year, month, day })
    }

    /// The day after this one, as the `time` crate computes it.
    pub fn next_day(&self) -> (result: Option<CalendarDate>)
        requires
            self.wf(),
        ensures
            result == self.successor(),
            result matches Some(next) ==> next.wf(),
    {
        proof {
            lemma_successor_wf(*self);
        }
        time_next_day(*self)
    }
}

/// The number of days of a month, computed.
pub fn month_length(year: i32, month: u8) -> (result: u8)
    requires
        1 <= month <= 12,
    ensures
        result as int == days_in_month(year as int, month as int),
{
    if month == 2 {
        if year % 4 == 0 && (year % 100 != 0 || year % 400 == 0) {
            29
        } else {
            28
        }
    } else if month == 4 || month == 6 || month == 9 || month == 11 {
        30
    } else {
        31
    }
}

/// The successor of an existing day exists within the supported years.
pub proof fn lemma_successor_wf(date: CalendarDate)
    requires
        date.wf(),
    ensures
        date.successor() matches Some(next) ==> next.wf(),
{
}

/// `time::Date::next_day`, on a date built by `time::Date::from_calendar_date`
/// from the three fields. For a day that exists the outside function gives
/// the following calendar day, and nothing on the last day of year 9999.
#[verifier::external_body]
fn time_next_day(date: CalendarDate) -> (result: Option<CalendarDate>)
    requires
        date.wf(),
    ensures
        result == date.successor(),
{
    let month = time::Month::try_from(date.month).unwrap();
    let day = time::Date::from_calendar_date(date.year, month, date.day).unwrap();
    day.next_day().map(|next| CalendarDate {
        year: next.year(),
        month: u8::from(next.month()),
        day: next.day(),
    })
}

} // verus!

//! The schedule fetch: which days are asked for, in which order, and when
//! the fetch is complete.

use vstd::prelude::*;
use crate::calendar::{CalendarDate, MAX_YEAR, days_in_month, lemma_successor_wf};
use crate::data::{Day, FetchRange, SessionsJSON};

verus! {

/// The day to ask for after `current`, once `fetched` days (with `current`
/// the last of them) have been received; `None` where the fetch is complete.
///
/// A fetch of a fixed number of days is complete once that many days are in;
/// a fetch to the end of the month is complete once the following day lies in
/// another month than `start_month`. Either is complete where the calendar
/// has no following day.
pub open spec fn day_after(
    range: FetchRange,
    start_month: u8,
    fetched: nat,
    current: CalendarDate,
) -> Option<CalendarDate> {
    match current.successor() {
        None => None,
        Some(next) => match range {
            FetchRange::NumberOfDays(n) => if fetched >= n {
                None
            } else {
                Some(next)
            },
            FetchRange::ThisMonthFromToday => if next.month != start_month {
                None
            } else {
                Some(next)
            },
        },
    }
}

/// The days still to ask for, `current` first, when `fetched` days are in.
pub open spec fn remaining_dates(
    range: FetchRange,
    start_month: u8,
    fetched: nat,
    current: CalendarDate,
) -> Seq<CalendarDate>
    decreases MAX_YEAR - current.year, 12 - current.month, 31 - current.day,
    when current.wf()
{
    match day_after(range, start_month, fetched + 1, current) {
        None => seq![current],
        Some(next) => seq![current] + remaining_dates(range, start_month, fetched + 1, next),
    }
}

/// The days a fetch that starts on `start` asks for, in order.
pub open spec fn fetch_dates(range: FetchRange, start: CalendarDate) -> Seq<CalendarDate> {
    remaining_dates(range, start.month, 0, start)
}

/// The dates of a sequence of days, in order.
pub open spec fn dates_of(days: Seq<Day>) -> Seq<CalendarDate> {
    Seq::new(days.len(), |i: int| days[i].date)
}

/// The day to ask for next, or `None` where the fetch is complete.
pub fn next_fetch_date(
    range: FetchRange,
    start_month: u8,
    fetched: usize,
    current: CalendarDate,
) -> (result: Option<CalendarDate>)
    requires
        current.wf(),
    ensures
        result == day_after(range, start_month, fetched as nat, current),
        result matches Some(next) ==> next.wf(),
{
    proof {
        lemma_successor_wf(current);
    }
    match current.next_day() {
        None => None,
        Some(next) => match range {
            FetchRange::NumberOfDays(n) => if fetched >= n as usize {
                None
            } else {
                Some(next)
            },
            FetchRange::ThisMonthFromToday => if next.month != start_month {
                None
            } else {
                Some(next)
            },
        },
    }
}

/// The days a fetch that starts on `today` will ask for, in order.
pub fn plan_dates(range: FetchRange, today: CalendarDate) -> (dates: Vec<CalendarDate>)
    requires
        today.wf(),
    ensures
        dates@ == fetch_dates(range, today),
{
    let mut dates: Vec<CalendarDate> = Vec::new();
    let mut current = today;
    loop
        invariant
            current.wf(),
            fetch_dates(range, today) == dates@ + remaining_dates(
                range,
                today.month,
                dates@.len(),
                current,
            ),
        decreases MAX_YEAR - current.year, 12 - current.month, 31 - current.day,
    {
        dates.push(current);
        match next_fetch_date(range, today.month, dates.len(), current) {
            None => {
                return dates;
            },
            Some(next) => {
                assert(dates@ + remaining_dates(range, today.month, dates@.len(), next)
                    =~= fetch_dates(range, today));
                current = next;
            },
        }
    }
}

/// The appointment type that every session request names.
pub const APPOINTMENT_TYPE: &'static str = "PROXY_ENDOWMENT";

/// The body of the request for one day's sessions.
#[derive(Clone, Copy, Debug, PartialEq, Eq, Structural)]
pub struct SessionRequest {
    pub session_year: i32,
    /// Counted from 0 for January.
    pub session_month: u8,
    pub session_day: u8,
    pub temple_org_id: u32,
}

/// The request for the sessions of `date` at the temple with this identifier.
/// The portal counts months from 0.
pub fn session_request(date: CalendarDate, temple_org_id: u32) -> (request: SessionRequest)
    requires
        date.wf(),
    ensures
        request == (SessionRequest {
            session_year: date.year,
            session_month: (date.month - 1) as u8,
            session_day: date.day,
            temple_org_id,
        }),
        request.session_month < 12,
{
    SessionRequest {
        session_year: date.year,
        session_month: date.month - 1,
        session_day: date.day,
        temple_org_id,
    }
}

/// A schedule fetch in progress: the days received so far and the day to ask
/// for next. The caller performs each request and hands the answer to
/// [`ScheduleFetch::record`]; a request that fails ends the fetch with
/// nothing, by dropping this value.
pub struct ScheduleFetch {
    range: FetchRange,
    start: CalendarDate,
    utc_offset_seconds: i32,
    days: Vec<Day>,
    next_date: CalendarDate,
}

/// What a fetch needs after an answer came in.
pub enum FetchStep {
    /// Another request, for the day that the fetch now names.
    Continue(ScheduleFetch),
    /// Nothing more: the days of the whole fetch, in calendar order.
    Finished(Vec<Day>),
}

impl ScheduleFetch {
    /// The policy the fetch runs under.
    pub closed spec fn range(&self) -> FetchRange {
        self.range
    }

    /// The day the fetch started on.
    pub closed spec fn start(&self) -> CalendarDate {
        self.start
    }

    /// The offset from UTC that every day of the result carries.
    pub closed spec fn offset(&self) -> i32 {
        self.utc_offset_seconds
    }

    /// The days received so far.
    pub closed spec fn received(&self) -> Seq<Day> {
        self.days@
    }

    /// The day the next request is for.
    pub closed spec fn pending(&self) -> CalendarDate {
        self.next_date
    }

    /// The days received are the first days of the plan, the pending day is
    /// the one that follows them, and each carries the fetch's offset.
    pub closed spec fn wf(&self) -> bool {
        &&& self.start.wf()
        &&& self.next_date.wf()
        &&& fetch_dates(self.range, self.start) == dates_of(self.days@) + remaining_dates(
            self.range,
            self.start.month,
            self.days@.len(),
            self.next_date,
        )
        &&& forall|i: int|
            0 <= i < self.days@.len() ==> (#[trigger] self.days@[i]).utc_offset_seconds
                == self.utc_offset_seconds
    }

    /// A fetch that has received nothing and asks for `today` first.
    pub fn begin(range: FetchRange, today: CalendarDate, utc_offset_seconds: i32) -> (fetch: Self)
        requires
            today.wf(),
        ensures
            fetch.wf(),
            fetch.range() == range,
            fetch.start() == today,
            fetch.offset() == utc_offset_seconds,
            fetch.received() == Seq::<Day>::empty(),
            fetch.pending() == today,
    {
        let fetch = ScheduleFetch {
            range,
            start: today,
            utc_offset_seconds,
            days: Vec::new(),
            next_date: today,
        };
        assert(dates_of(fetch.days@) + remaining_dates(range, today.month, 0, today)
            =~= fetch_dates(range, today));
        fetch
    }

    /// The day to request now.
    pub fn pending_date(&self) -> (date: CalendarDate)
        requires
            self.wf(),
        ensures
            date == self.pending(),
            date.wf(),
            self.received().len() < fetch_dates(self.range(), self.start()).len(),
            date == fetch_dates(self.range(), self.start())[self.received().len() as int],
    {
        proof {
            lemma_remaining_dates_head(
                self.range,
                self.start.month,
                self.days@.len(),
                self.next_date,
            );
        }
        self.next_date
    }

    /// Takes the answer for the pending day. The day, at the fetch's offset
    /// and with these sessions, is appended to those received; the fetch is
    /// finished exactly when that was the last day of the plan, and then
    /// hands out one day per planned date, in the plan's order.
    pub fn record(self, sessions: SessionsJSON) -> (step: FetchStep)
        requires
            self.wf(),
        ensures
            match step {
                FetchStep::Continue(next) => {
                    &&& next.wf()
                    &&& next.range() == self.range()
                    &&& next.start() == self.start()
                    &&& next.offset() == self.offset()
                    &&& next.received() == self.received().push(
                        (Day {
                            date: self.pending(),
                            utc_offset_seconds: self.offset(),
                            sessions,
                        }),
                    )
                    &&& day_after(
                        self.range(),
                        self.start().month,
                        self.received().len() + 1,
                        self.pending(),
                    ) == Some(next.pending())
                },
                FetchStep::Finished(days) => {
                    &&& days@ == self.received().push(
                        (Day {
                            date: self.pending(),
                            utc_offset_seconds: self.offset(),
                            sessions,
                        }),
                    )
                    &&& dates_of(days@) == fetch_dates(self.range(), self.start())
                    &&& day_after(
                        self.range(),
                        self.start().month,
                        self.received().len() + 1,
                        self.pending(),
                    ) is None
                    &&& forall|i: int|
                        0 <= i < days@.len() ==> (#[trigger] days@[i]).utc_offset_seconds
                            == self.offset()
                },
            },
    {
        let ScheduleFetch { range, start, utc_offset_seconds, days, next_date } = self;
        let mut days = days;
        let ghost before = days@;
        days.push(Day { date: next_date, utc_offset_seconds, sessions });
        assert(dates_of(days@) =~= dates_of(before).push(next_date));
        match next_fetch_date(range, start.month, days.len(), next_date) {
            None => {
                assert(dates_of(days@) =~= fetch_dates(range, start));
                FetchStep::Finished(days)
            },
            Some(next) => {
                let fetch = ScheduleFetch { range, start, utc_offset_seconds, days, next_date: next };
                assert(dates_of(fetch.days@) + remaining_dates(
                    range,
                    start.month,
                    fetch.days@.len(),
                    next,
                ) =~= fetch_dates(range, start));
                FetchStep::Continue(fetch)
            },
        }
    }
}

/// The days still to ask for begin with the pending day.
pub proof fn lemma_remaining_dates_head(
    range: FetchRange,
    start_month: u8,
    fetched: nat,
    current: CalendarDate,
)
    requires
        current.wf(),
    ensures
        remaining_dates(range, start_month, fetched, current).len() >= 1,
        remaining_dates(range, start_month, fetched, current)[0] == current,
{
}

/// The days a fetch asks for begin with the starting day, and each further
/// one is the day after the one before it: none is left out, none comes
/// twice, and none comes out of order.
pub proof fn lemma_fetch_dates_consecutive(range: FetchRange, start: CalendarDate)
    requires
        start.wf(),
    ensures
        fetch_dates(range, start).len() >= 1,
        fetch_dates(range, start)[0] == start,
        forall|i: int|
            0 < i < fetch_dates(range, start).len() ==> fetch_dates(range, start)[i - 1].successor()
                == Some(#[trigger] fetch_dates(range, start)[i]),
        forall|i: int|
            0 <= i < fetch_dates(range, start).len() ==> (#[trigger] fetch_dates(
                range,
                start,
            )[i]).wf(),
{
    lemma_remaining_dates_consecutive(range, start.month, 0, start);
}

/// The rest of a plan begins with the pending day, and each further day is
/// the day after the one before it.
proof fn lemma_remaining_dates_consecutive(
    range: FetchRange,
    start_month: u8,
    fetched: nat,
    current: CalendarDate,
)
    requires
        current.wf(),
    ensures
        remaining_dates(range, start_month, fetched, current).len() >= 1,
        remaining_dates(range, start_month, fetched, current)[0] == current,
        forall|i: int|
            0 < i < remaining_dates(range, start_month, fetched, current).len()
                ==> remaining_dates(range, start_month, fetched, current)[i - 1].successor()
                == Some(#[trigger] remaining_dates(range, start_month, fetched, current)[i]),
        forall|i: int|
            0 <= i < remaining_dates(range, start_month, fetched, current).len() ==> (
            #[trigger] remaining_dates(range, start_month, fetched, current)[i]).wf(),
    decreases MAX_YEAR - current.year, 12 - current.month, 31 - current.day,
{
    let rest = remaining_dates(range, start_month, fetched, current);
    match day_after(range, start_month, fetched + 1, current) {
        None => {
            assert(rest =~= seq![current]);
        },
        Some(next) => {
            lemma_successor_wf(current);
            lemma_remaining_dates_consecutive(range, start_month, fetched + 1, next);
            let tail = remaining_dates(range, start_month, fetched + 1, next);
            assert(rest =~= seq![current] + tail);
            assert forall|i: int| 0 < i < rest.len() implies rest[i - 1].successor() == Some(
                #[trigger] rest[i],
            ) by {
                assert(rest[i] == tail[i - 1]);
                if i > 1 {
                    assert(rest[i - 1] == tail[i - 2]);
                }
            }
            assert forall|i: int| 0 <= i < rest.len() implies (#[trigger] rest[i]).wf() by {
                if i > 0 {
                    assert(rest[i] == tail[i - 1]);
                }
            }
        },
    }
}

/// A fetch of `n` days, `n` at least one, that starts on `start` asks for
/// exactly `n` days: `start` and the days that follow it, one by one, as far as
/// the calendar holds them all.
pub proof fn lemma_fixed_count_dates(start: CalendarDate, n: u32)
    requires
        start.wf(),
        n >= 1,
        start.plus_days((n - 1) as nat) is Some,
    ensures
        fetch_dates(FetchRange::NumberOfDays(n), start).len() == n,
        forall|i: int|
            0 <= i < n ==> start.plus_days(i as nat) == Some(
                #[trigger] fetch_dates(FetchRange::NumberOfDays(n), start)[i],
            ),
{
    lemma_fixed_count_from(start.month, n, 0, start);
    assert(start.plus_days(0) == Some(start));
}

/// The fixed-count plan from any point of the fetch on: with `fetched` days
/// in and `n - fetched` to go, the rest of the plan is the pending day and
/// its successors.
proof fn lemma_fixed_count_from(start_month: u8, n: u32, fetched: nat, current: CalendarDate)
    requires
        current.wf(),
        fetched < n,
        current.plus_days((n - 1 - fetched) as nat) is Some,
    ensures
        remaining_dates(FetchRange::NumberOfDays(n), start_month, fetched, current).len() == n
            - fetched,
        forall|i: int|
            0 <= i < n - fetched ==> current.plus_days(i as nat) == Some(
                #[trigger] remaining_dates(
                    FetchRange::NumberOfDays(n),
                    start_month,
                    fetched,
                    current,
                )[i],
            ),
    decreases n - fetched,
{
    let range = FetchRange::NumberOfDays(n);
    let rest = remaining_dates(range, start_month, fetched, current);
    assert(current.plus_days(0) == Some(current));
    if fetched + 1 >= n {
        assert(rest =~= seq![current]);
    } else {
        let k = (n - 1 - fetched) as nat;
        lemma_plus_days_shift(current, k);
        let next = current.successor().unwrap();
        lemma_successor_wf(current);
        lemma_fixed_count_from(start_month, n, fetched + 1, next);
        let tail = remaining_dates(range, start_month, fetched + 1, next);
        assert(rest =~= seq![current] + tail);
        assert forall|i: int| 0 <= i < n - fetched implies current.plus_days(i as nat) == Some(
            #[trigger] rest[i],
        ) by {
            if i > 0 {
                assert(rest[i] == tail[i - 1]);
                lemma_plus_days_prefix(current, i as nat, k);
                lemma_plus_days_shift(current, i as nat);
            }
        }
    }
}

/// Going `k` days on, `k` at least one, is going one day on and then `k - 1`.
pub proof fn lemma_plus_days_shift(date: CalendarDate, k: nat)
    requires
        k >= 1,
        date.plus_days(k) is Some,
    ensures
        date.successor() matches Some(next) && next.plus_days((k - 1) as nat) == date.plus_days(k),
    decreases k,
{
    assert(date.plus_days(0) == Some(date));
    if k == 1 {
        assert(date.plus_days(1) == date.successor());
        assert(date.successor().unwrap().plus_days(0) == date.successor());
    } else {
        assert(date.plus_days((k - 1) as nat) is Some);
        lemma_plus_days_shift(date, (k - 1) as nat);
        let next = date.successor().unwrap();
        assert(next.plus_days((k - 1) as nat) == next.plus_days((k - 2) as nat).unwrap().successor());
    }
}

/// Where the calendar reaches `k` days on, it reaches every day before that.
pub proof fn lemma_plus_days_prefix(date: CalendarDate, i: nat, k: nat)
    requires
        i <= k,
        date.plus_days(k) is Some,
    ensures
        date.plus_days(i) is Some,
    decreases k - i,
{
    if i < k {
        lemma_plus_days_prefix(date, i + 1, k);
    }
}

/// A fetch to the end of the month asks for `start` and every later day of
/// its month, and for no other day.
pub proof fn lemma_month_end_dates(start: CalendarDate)
    requires
        start.wf(),
    ensures
        fetch_dates(FetchRange::ThisMonthFromToday, start).len() == days_in_month(
            start.year as int,
            start.month as int,
        ) - start.day + 1,
        forall|i: int|
            0 <= i < fetch_dates(FetchRange::ThisMonthFromToday, start).len() ==> {
                let d = #[trigger] fetch_dates(FetchRange::ThisMonthFromToday, start)[i];
                d.year == start.year && d.month == start.month && d.day == start.day + i
            },
{
    lemma_month_end_from(start.month, 0, start);
}

/// A fetch to the end of the month that starts on the last day of a month asks
/// for that one day.
pub proof fn lemma_month_end_on_last_day(start: CalendarDate)
    requires
        start.wf(),
        start.is_month_end(),
    ensures
        fetch_dates(FetchRange::ThisMonthFromToday, start) == seq![start],
{
    lemma_month_end_from(start.month, 0, start);
    assert(fetch_dates(FetchRange::ThisMonthFromToday, start) =~= seq![start]);
}

/// The plan to the end of the month from a day of the starting month on: that
/// day and every later day of the month.
proof fn lemma_month_end_from(start_month: u8, fetched: nat, current: CalendarDate)
    requires
        current.wf(),
        current.month == start_month,
    ensures
        remaining_dates(FetchRange::ThisMonthFromToday, start_month, fetched, current).len()
            == days_in_month(current.year as int, current.month as int) - current.day + 1,
        forall|i: int|
            0 <= i < remaining_dates(
                FetchRange::ThisMonthFromToday,
                start_month,
                fetched,
                current,
            ).len() ==> {
                let d = #[trigger] remaining_dates(
                    FetchRange::ThisMonthFromToday,
                    start_month,
                    fetched,
                    current,
                )[i];
                d.year == current.year && d.month == current.month && d.day == current.day + i
            },
    decreases 31 - current.day,
{
    let range = FetchRange::ThisMonthFromToday;
    let rest = remaining_dates(range, start_month, fetched, current);
    if current.is_month_end() {
        assert(rest =~= seq![current]);
    } else {
        let next = current.successor().unwrap();
        lemma_month_end_from(start_month, fetched + 1, next);
        let tail = remaining_dates(range, start_month, fetched + 1, next);
        assert(rest =~= seq![current] + tail);
        assert forall|i: int| 0 <= i < rest.len() implies ({
            let d = #[trigger] rest[i];
            d.year == current.year && d.month == current.month && d.day == current.day + i
        }) by {
            if i > 0 {
                assert(rest[i] == tail[i - 1]);
            }
        }
    }
}

} // verus!

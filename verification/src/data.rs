//! The records that the portal reports and the policies a fetch is run with.

use vstd::prelude::*;
use vstd::string::StringExecFns;
use crate::calendar::{CalendarDate, ClockTime, LocalDateTime};
use crate::serde_date::LONG_DATE;
use crate::serde_status::status_named;
use crate::text::{decimal_digits, decimal_text, same_text, uppercase};
use crate::timestamps::{
    formatted_clock_time, formatted_date, parsed_clock_time, parsed_date, parsed_date_time,
    parsed_rfc3339, read_clock_time, read_date_time, read_rfc3339, write_clock_time, write_date,
};

verus! {

/// The form of a session's timestamp, such as `2022-05-14T09:30:00`.
pub const SESSION_TIME: &'static str = "[year]-[month]-[day]T[hour]:[minute]:[second]";

/// The form of an appointment's time of day, such as `09:30`.
pub const APPOINTMENT_TIME: &'static str = "[hour]:[minute]";

/// The form a session's time of day is shown in, such as `09:30 AM`.
pub const SESSION_CLOCK: &'static str = "[hour repr:12]:[minute] [period]";

/// The form a day is headed with, such as `May 14, 2022 (Sat)`.
pub const DAY_HEADING: &'static str = "[month repr:short] [day], [year] ([weekday repr:short])";

/// The form an appointment's day is shown in, such as `May 4, 2022`.
pub const APPOINTMENT_DAY: &'static str = "[month repr:short] [day padding:none], [year]";

/// The form an appointment's time of day is shown in, such as `9:30 AM`.
pub const APPOINTMENT_CLOCK: &'static str = "[hour repr:12 padding:none]:[minute] [period]";

/// The characters of a text that may be missing.
pub open spec fn text_of(text: Option<String>) -> Option<Seq<char>> {
    match text {
        Some(t) => Some(t@),
        None => None,
    }
}

/// What the portal says of one session besides its time.
#[derive(Clone, Copy, Debug, PartialEq, Eq, Structural)]
pub struct SessionDetails {
    /// As reported; the portal sometimes sends a negative count.
    pub remaining_online_seats_available: i32,
}

impl SessionDetails {
    /// The seats that can still be booked: the reported count, with a
    /// negative count taken as none.
    pub open spec fn spec_open_seats(&self) -> nat {
        if self.remaining_online_seats_available < 0 {
            0
        } else {
            self.remaining_online_seats_available as nat
        }
    }

    /// The seats that can still be booked, never negative.
    pub fn open_seats(&self) -> (seats: u32)
        ensures
            seats as nat == self.spec_open_seats(),
            self.remaining_online_seats_available >= 0 ==> seats as int
                == self.remaining_online_seats_available as int,
            self.remaining_online_seats_available < 0 ==> seats == 0,
    {
        if self.remaining_online_seats_available < 0 {
            0
        } else {
            self.remaining_online_seats_available as u32
        }
    }
}

/// A bookable timeslot, at a time in the temple's own timezone.
#[derive(Clone, Copy, Debug, PartialEq, Eq, Structural)]
pub struct Session {
    pub time: LocalDateTime,
    pub details: SessionDetails,
}

impl Session {
    /// The line a session is shown as: its time of day and the seats left,
    /// a negative count shown as 0. `None` where the time cannot be written.
    pub open spec fn spec_text(&self) -> Option<Seq<char>> {
        match formatted_clock_time(
            self.time.time.hour as int,
            self.time.time.minute as int,
            self.time.time.second as int,
            SESSION_CLOCK@,
        ) {
            Some(clock) => Some(
                clock + " - remaining seats: "@ + decimal_digits(self.details.spec_open_seats()),
            ),
            None => None,
        }
    }

    /// The line a session is shown as.
    pub fn to_text(&self) -> (text: Option<String>)
        requires
            self.time.time.wf(),
        ensures
            text_of(text) == self.spec_text(),
    {
        match write_clock_time(self.time.time, SESSION_CLOCK) {
            Some(clock) => {
                let seats = decimal_text(self.details.open_seats() as u64);
                Some(clock.concat(" - remaining seats: ").concat(seats.as_str()))
            },
            None => None,
        }
    }

    /// The session that the portal's record stands for: its timestamp read
    /// as a local time, and the seat count as reported. `None` where the
    /// timestamp is not one.
    pub fn from_parts(time_text: &str, remaining_online_seats_available: i32) -> (result: Option<
        Session,
    >)
        ensures
            result == (match parsed_date_time(time_text@, SESSION_TIME@) {
                Some(time) => Some(
                    Session { time, details: SessionDetails { remaining_online_seats_available } },
                ),
                None => None,
            }),
            result matches Some(session) ==> session.time.date.wf() && session.time.time.wf(),
    {
        match read_date_time(time_text, SESSION_TIME) {
            Some(time) => Some(
                Session { time, details: SessionDetails { remaining_online_seats_available } },
            ),
            None => None,
        }
    }
}

/// One day's sessions, in the order the portal sent them.
#[derive(Clone, Debug)]
pub struct SessionsJSON {
    pub session_list: Vec<Session>,
}

impl View for SessionsJSON {
    type V = Seq<Session>;

    open spec fn view(&self) -> Seq<Session> {
        self.session_list@
    }
}

/// The lines of a list of sessions, each ended by a line break. `None` where
/// one of them cannot be written.
pub open spec fn lines_of(sessions: Seq<Session>) -> Option<Seq<char>>
    decreases sessions.len(),
{
    if sessions.len() == 0 {
        Some(Seq::<char>::empty())
    } else {
        match (lines_of(sessions.drop_last()), sessions.last().spec_text()) {
            (Some(before), Some(line)) => Some(before + line + "\n"@),
            _ => None,
        }
    }
}

/// Where the first sessions of a list cannot be written, the list cannot.
pub proof fn lemma_lines_of_prefix(sessions: Seq<Session>, count: int)
    requires
        0 <= count <= sessions.len(),
        lines_of(sessions.take(count)) is None,
    ensures
        lines_of(sessions) is None,
    decreases sessions.len() - count,
{
    if count < sessions.len() {
        assert(sessions.take(count + 1).drop_last() =~= sessions.take(count));
        lemma_lines_of_prefix(sessions, count + 1);
    } else {
        assert(sessions.take(count) =~= sessions);
    }
}

impl SessionsJSON {
    /// Whether every session holds a time of day.
    pub open spec fn wf(&self) -> bool {
        forall|i: int| 0 <= i < self@.len() ==> (#[trigger] self@[i]).time.time.wf()
    }

    /// The sessions as lines, in their order.
    pub fn to_text(&self) -> (text: Option<String>)
        requires
            self.wf(),
        ensures
            text_of(text) == lines_of(self@),
    {
        let mut text = String::new();
        let mut i: usize = 0;
        assert(self@.take(0) =~= Seq::<Session>::empty());
        while i < self.session_list.len()
            invariant
                i <= self@.len(),
                self.wf(),
                lines_of(self@.take(i as int)) == Some(text@),
            decreases self@.len() - i,
        {
            assert(self@.take(i + 1).drop_last() =~= self@.take(i as int));
            assert(self@.take(i + 1).last() == self@[i as int]);
            match self.session_list[i].to_text() {
                Some(line) => {
                    text = text.concat(line.as_str()).concat("\n");
                },
                None => {
                    proof {
                        lemma_lines_of_prefix(self@, i + 1);
                    }
                    return None;
                },
            }
            i += 1;
        }
        assert(self@.take(i as int) =~= self@);
        Some(text)
    }
}

/// The session that a record of the portal stands for: its timestamp read
/// as a local time, its seat count as reported.
pub open spec fn session_of(record: (String, i32)) -> Option<Session> {
    match parsed_date_time(record.0@, SESSION_TIME@) {
        Some(time) => Some(
            Session { time, details: SessionDetails { remaining_online_seats_available: record.1 } },
        ),
        None => None,
    }
}

impl SessionsJSON {
    /// Reads a day's sessions from the portal's records, timestamp and seat
    /// count each, keeping their order. One timestamp that cannot be read
    /// leaves nothing of the day.
    pub fn from_records(records: &[(String, i32)]) -> (result: Option<SessionsJSON>)
        ensures
            match result {
                Some(sessions) => {
                    &&& sessions.wf()
                    &&& sessions@.len() == records@.len()
                    &&& forall|i: int|
                        0 <= i < records@.len() ==> session_of(#[trigger] records@[i]) == Some(
                            sessions@[i],
                        )
                },
                None => exists|i: int|
                    0 <= i < records@.len() && session_of(#[trigger] records@[i]) is None,
            },
    {
        let mut session_list: Vec<Session> = Vec::new();
        let mut i: usize = 0;
        while i < records.len()
            invariant
                i <= records@.len(),
                session_list@.len() == i,
                forall|k: int|
                    0 <= k < i ==> session_of(#[trigger] records@[k]) == Some(session_list@[k]),
                forall|k: int| 0 <= k < i ==> (#[trigger] session_list@[k]).time.time.wf(),
            decreases records@.len() - i,
        {
            match Session::from_parts(records[i].0.as_str(), records[i].1) {
                Some(session) => {
                    session_list.push(session);
                },
                None => {
                    assert(session_of(records@[i as int]) is None);
                    return None;
                },
            }
            i += 1;
        }
        Some(SessionsJSON { session_list })
    }
}

/// A calendar day, taken at local midnight, with its sessions.
#[derive(Clone, Debug)]
pub struct Day {
    /// The day; the instant meant is its midnight at `utc_offset_seconds`.
    pub date: CalendarDate,
    /// The caller's offset from UTC, in seconds.
    pub utc_offset_seconds: i32,
    pub sessions: SessionsJSON,
}

impl Day {
    /// Whether the day exists and every session holds a time of day.
    pub open spec fn wf(&self) -> bool {
        self.date.wf() && self.sessions.wf()
    }

    /// The day as text: its heading on a line, then its sessions as lines.
    /// `None` where the heading or a session cannot be written.
    pub open spec fn spec_text(&self) -> Option<Seq<char>> {
        match (
            formatted_date(
                self.date.year as int,
                self.date.month as int,
                self.date.day as int,
                DAY_HEADING@,
            ),
            lines_of(self.sessions@),
        ) {
            (Some(heading), Some(lines)) => Some(heading + "\n"@ + lines),
            _ => None,
        }
    }

    /// The day as text.
    pub fn to_text(&self) -> (text: Option<String>)
        requires
            self.wf(),
        ensures
            text_of(text) == self.spec_text(),
    {
        match write_date(self.date, DAY_HEADING) {
            None => None,
            Some(heading) => match self.sessions.to_text() {
                None => None,
                Some(lines) => Some(heading.concat("\n").concat(lines.as_str())),
            },
        }
    }
}

/// How many days a schedule fetch covers.
#[derive(Clone, Copy, Debug, PartialEq, Eq, Structural)]
pub enum FetchRange {
    /// From the starting day through the end of its month.
    ThisMonthFromToday,
    /// This many days from the starting day on.
    NumberOfDays(u32),
}

impl FetchRange {
    /// The policy for a requested number of days, where 0 asks for the rest
    /// of the month.
    pub fn from_count(count: u32) -> (range: FetchRange)
        ensures
            range == (if count == 0 {
                FetchRange::ThisMonthFromToday
            } else {
                FetchRange::NumberOfDays(count)
            }),
    {
        if count == 0 {
            FetchRange::ThisMonthFromToday
        } else {
            FetchRange::NumberOfDays(count)
        }
    }
}

/// The kind of ordinance an appointment is for.
#[derive(Clone, Copy, Debug, PartialEq, Eq, Structural)]
pub enum OrdinanceType {
    Baptism,
    Initiatory,
    Endowment,
    Sealing,
}

/// The name under which an ordinance is shown.
pub open spec fn ordinance_name(kind: OrdinanceType) -> Seq<char> {
    match kind {
        OrdinanceType::Baptism => "Baptism"@,
        OrdinanceType::Initiatory => "Initiatory"@,
        OrdinanceType::Endowment => "Endowment"@,
        OrdinanceType::Sealing => "Sealing"@,
    }
}

/// The ordinance that an upper-case name stands for.
pub open spec fn ordinance_named(upper: Seq<char>) -> Option<OrdinanceType> {
    if upper == "BAPTISM"@ {
        Some(OrdinanceType::Baptism)
    } else if upper == "INITIATORY"@ {
        Some(OrdinanceType::Initiatory)
    } else if upper == "ENDOWMENT"@ {
        Some(OrdinanceType::Endowment)
    } else if upper == "SEALING"@ || upper == "PROXY_SEALING"@ {
        Some(OrdinanceType::Sealing)
    } else {
        None
    }
}

impl OrdinanceType {
    /// The ordinance that an upper-case name stands for.
    pub fn from_upper(upper: &str) -> (result: Option<OrdinanceType>)
        ensures
            result == ordinance_named(upper@),
    {
        if same_text(upper, "BAPTISM") {
            Some(OrdinanceType::Baptism)
        } else if same_text(upper, "INITIATORY") {
            Some(OrdinanceType::Initiatory)
        } else if same_text(upper, "ENDOWMENT") {
            Some(OrdinanceType::Endowment)
        } else if same_text(upper, "SEALING") || same_text(upper, "PROXY_SEALING") {
            Some(OrdinanceType::Sealing)
        } else {
            None
        }
    }

    /// The ordinance that a name stands for, whatever its case; for an
    /// unknown name, a message that quotes it in upper case.
    pub fn from_str(s: &str) -> (result: Result<OrdinanceType, String>)
        ensures
            match result {
                Ok(kind) => ordinance_named(uppercase(s@)) == Some(kind),
                Err(message) => ordinance_named(uppercase(s@)) is None && message@
                    == "Unknown ordinance type "@ + uppercase(s@),
            },
    {
        let upper = s.to_uppercase();
        match OrdinanceType::from_upper(upper.as_str()) {
            Some(kind) => Ok(kind),
            None => Err(String::from_str("Unknown ordinance type ").concat(upper.as_str())),
        }
    }

    /// The name under which the ordinance is shown.
    pub fn name(&self) -> (text: &'static str)
        ensures
            text@ == ordinance_name(*self),
    {
        match self {
            OrdinanceType::Baptism => "Baptism",
            OrdinanceType::Initiatory => "Initiatory",
            OrdinanceType::Endowment => "Endowment",
            OrdinanceType::Sealing => "Sealing",
        }
    }
}

/// An existing booking, as the portal reports it.
#[derive(Clone, Debug)]
pub struct AppointmentJSON {
    /// The portal's name for the ordinance.
    pub appointment_type: String,
    /// The reported timestamp; its time of day is not to be trusted.
    pub appointment_date_time: LocalDateTime,
    /// The offset from UTC of the reported timestamp, in seconds.
    pub appointment_utc_offset_seconds: i32,
    /// The time of day in the temple's timezone.
    pub appointment_time: ClockTime,
}

impl AppointmentJSON {
    /// The appointment that the portal's record stands for. `None` where the
    /// timestamp or the time of day cannot be read.
    pub fn from_parts(appointment_type: String, date_time_text: &str, time_text: &str) -> (result:
        Option<AppointmentJSON>)
        ensures
            match result {
                Some(appointment) => {
                    &&& appointment.appointment_type@ == appointment_type@
                    &&& parsed_rfc3339(date_time_text@) == Some(
                        (
                            appointment.appointment_date_time,
                            appointment.appointment_utc_offset_seconds,
                        ),
                    )
                    &&& parsed_clock_time(time_text@, APPOINTMENT_TIME@) == Some(
                        appointment.appointment_time,
                    )
                },
                None => parsed_rfc3339(date_time_text@) is None || parsed_clock_time(
                    time_text@,
                    APPOINTMENT_TIME@,
                ) is None,
            },
            result matches Some(appointment) ==> appointment.wf(),
    {
        match read_rfc3339(date_time_text) {
            None => None,
            Some(stamp) => match read_clock_time(time_text, APPOINTMENT_TIME) {
                None => None,
                Some(appointment_time) => Some(
                    AppointmentJSON {
                        appointment_type,
                        appointment_date_time: stamp.0,
                        appointment_utc_offset_seconds: stamp.1,
                        appointment_time,
                    },
                ),
            },
        }
    }

    /// The appointment that a record of three texts stands for: the name of
    /// the ordinance, the timestamp and the time of day.
    pub open spec fn of_record(record: (String, String, String)) -> Option<
        (Seq<char>, LocalDateTime, i32, ClockTime),
    > {
        match (parsed_rfc3339(record.1@), parsed_clock_time(record.2@, APPOINTMENT_TIME@)) {
            (Some(stamp), Some(time)) => Some((record.0@, stamp.0, stamp.1, time)),
            _ => None,
        }
    }

    /// The parts of an appointment that its record fixes.
    pub open spec fn parts(&self) -> (Seq<char>, LocalDateTime, i32, ClockTime) {
        (
            self.appointment_type@,
            self.appointment_date_time,
            self.appointment_utc_offset_seconds,
            self.appointment_time,
        )
    }

    /// Reads the operator's appointments from the portal's records, keeping
    /// their order and leaving none out. One record that cannot be read
    /// leaves nothing.
    pub fn from_records(records: &[(String, String, String)]) -> (result: Option<
        Vec<AppointmentJSON>,
    >)
        ensures
            match result {
                Some(appointments) => {
                    &&& appointments@.len() == records@.len()
                    &&& forall|i: int|
                        0 <= i < records@.len() ==> AppointmentJSON::of_record(
                            #[trigger] records@[i],
                        ) == Some(appointments@[i].parts()) && appointments@[i].wf()
                },
                None => exists|i: int|
                    0 <= i < records@.len() && AppointmentJSON::of_record(#[trigger] records@[i])
                        is None,
            },
    {
        let mut appointments: Vec<AppointmentJSON> = Vec::new();
        let mut i: usize = 0;
        while i < records.len()
            invariant
                i <= records@.len(),
                appointments@.len() == i,
                forall|k: int|
                    0 <= k < i ==> AppointmentJSON::of_record(#[trigger] records@[k]) == Some(
                        appointments@[k].parts(),
                    ) && appointments@[k].wf(),
            decreases records@.len() - i,
        {
            let record = &records[i];
            match AppointmentJSON::from_parts(
                record.0.clone(),
                record.1.as_str(),
                record.2.as_str(),
            ) {
                Some(appointment) => {
                    appointments.push(appointment);
                },
                None => {
                    assert(AppointmentJSON::of_record(records@[i as int]) is None);
                    return None;
                },
            }
            i += 1;
        }
        Some(appointments)
    }

    /// Whether the portal's name for the ordinance is a known one.
    pub open spec fn has_known_type(&self) -> bool {
        ordinance_named(uppercase(self.appointment_type@)) is Some
    }

    /// The ordinance of the appointment.
    pub fn ordinance_type(&self) -> (kind: OrdinanceType)
        requires
            self.has_known_type(),
        ensures
            ordinance_named(uppercase(self.appointment_type@)) == Some(kind),
    {
        match OrdinanceType::from_str(self.appointment_type.as_str()) {
            Ok(kind) => kind,
            Err(_) => unreached(),
        }
    }

    /// The ordinance of the appointment, or `None` where the portal's name
    /// for it is unknown.
    pub fn checked_ordinance_type(&self) -> (kind: Option<OrdinanceType>)
        ensures
            kind == ordinance_named(uppercase(self.appointment_type@)),
    {
        let upper = self.appointment_type.as_str().to_uppercase();
        match OrdinanceType::from_upper(upper.as_str()) {
            Some(_) => Some(self.ordinance_type()),
            None => None,
        }
    }

    /// Whether the appointment holds a day that exists and times of day.
    pub open spec fn wf(&self) -> bool {
        &&& self.appointment_date_time.date.wf()
        &&& self.appointment_date_time.time.wf()
        &&& self.appointment_time.wf()
    }

    /// The line an appointment is shown as: its day, its time of day in the
    /// temple's timezone, and its ordinance. `None` where the ordinance is
    /// unknown or the day or the time cannot be written.
    pub open spec fn spec_text(&self) -> Option<Seq<char>> {
        match (
            ordinance_named(uppercase(self.appointment_type@)),
            formatted_date(
                self.appointment_date_time.date.year as int,
                self.appointment_date_time.date.month as int,
                self.appointment_date_time.date.day as int,
                APPOINTMENT_DAY@,
            ),
            formatted_clock_time(
                self.appointment_time.hour as int,
                self.appointment_time.minute as int,
                self.appointment_time.second as int,
                APPOINTMENT_CLOCK@,
            ),
        ) {
            (Some(kind), Some(day), Some(clock)) => Some(
                day + " at "@ + clock + " - "@ + ordinance_name(kind),
            ),
            _ => None,
        }
    }

    /// The line an appointment is shown as.
    pub fn to_text(&self) -> (text: Option<String>)
        requires
            self.wf(),
        ensures
            text_of(text) == self.spec_text(),
    {
        let kind = match self.checked_ordinance_type() {
            Some(kind) => kind,
            None => {
                return None;
            },
        };
        let day = match write_date(self.appointment_date_time.date, APPOINTMENT_DAY) {
            Some(day) => day,
            None => {
                return None;
            },
        };
        let clock = match write_clock_time(self.appointment_time, APPOINTMENT_CLOCK) {
            Some(clock) => clock,
            None => {
                return None;
            },
        };
        Some(day.concat(" at ").concat(clock.as_str()).concat(" - ").concat(kind.name()))
    }

    /// When the appointment takes place in the temple's timezone: the day of
    /// the reported timestamp, at the separately reported time of day.
    pub fn local_time(&self) -> (instant: LocalDateTime)
        ensures
            instant.date == self.appointment_date_time.date,
            instant.time == self.appointment_time,
    {
        LocalDateTime { date: self.appointment_date_time.date, time: self.appointment_time }
    }
}

/// How far the building of a temple has come.
#[derive(Clone, Copy, Debug, PartialEq, Eq, Structural)]
pub enum Status {
    Construction,
    Operating,
    Announced,
    Renovation,
}

/// An entry of the temple directory.
#[derive(Clone, Debug)]
pub struct Temple {
    pub name: String,
    pub status: Status,
    /// The day of dedication, where the directory gives one.
    pub date: Option<CalendarDate>,
    pub temple_org_id: u32,
    pub country: String,
    pub location: String,
    pub temple_name_id: String,
    pub city: String,
    pub state_region: String,
    pub sort_date: String,
}

impl Temple {
    /// The temple that an entry of the directory stands for: its status read
    /// from its name, whatever its case, and its day of dedication read
    /// where the text is a date. An unknown status is refused with a
    /// message that quotes it in upper case.
    pub fn from_parts(
        name: String,
        status_text: &str,
        date_text: &str,
        temple_org_id: u32,
        country: String,
        location: String,
        temple_name_id: String,
        city: String,
        state_region: String,
        sort_date: String,
    ) -> (result: Result<Temple, String>)
        ensures
            match result {
                Ok(temple) => {
                    &&& status_named(uppercase(status_text@)) == Some(temple.status)
                    &&& temple.date == parsed_date(date_text@, LONG_DATE@)
                    &&& temple.date matches Some(date) ==> date.wf()
                    &&& temple.name@ == name@
                    &&& temple.temple_org_id == temple_org_id
                    &&& temple.country@ == country@
                    &&& temple.location@ == location@
                    &&& temple.temple_name_id@ == temple_name_id@
                    &&& temple.city@ == city@
                    &&& temple.state_region@ == state_region@
                    &&& temple.sort_date@ == sort_date@
                },
                Err(message) => status_named(uppercase(status_text@)) is None && message@
                    == "Unable to parse status from string "@ + uppercase(status_text@),
            },
    {
        match crate::serde_status::deserialize(status_text) {
            Err(message) => Err(message),
            Ok(status) => Ok(
                Temple {
                    name,
                    status,
                    date: crate::serde_date::deserialize(date_text),
                    temple_org_id,
                    country,
                    location,
                    temple_name_id,
                    city,
                    state_region,
                    sort_date,
                },
            ),
        }
    }

    /// The day of dedication as shown in a table, such as `Apr 6, 1893`;
    /// empty where the directory gives no day or it cannot be written.
    pub open spec fn spec_dedication_text(&self) -> Seq<char> {
        match self.date {
            Some(date) => match formatted_date(
                date.year as int,
                date.month as int,
                date.day as int,
                APPOINTMENT_DAY@,
            ) {
                Some(text) => text,
                None => Seq::<char>::empty(),
            },
            None => Seq::<char>::empty(),
        }
    }

    /// The day of dedication as shown in a table.
    pub fn dedication_text(&self) -> (text: String)
        requires
            self.date matches Some(date) ==> date.wf(),
        ensures
            text@ == self.spec_dedication_text(),
    {
        match self.date {
            Some(date) => match write_date(date, APPOINTMENT_DAY) {
                Some(text) => text,
                None => String::new(),
            },
            None => String::new(),
        }
    }
}

/// Looks a temple up by its identifier: the first entry that carries it.
pub fn find_temple(temples: &[Temple], id: u32) -> (found: Option<usize>)
    ensures
        match found {
            Some(at) => {
                &&& at < temples@.len()
                &&& temples@[at as int].temple_org_id == id
                &&& forall|j: int| 0 <= j < at ==> temples@[j].temple_org_id != id
            },
            None => forall|j: int| 0 <= j < temples@.len() ==> temples@[j].temple_org_id != id,
        },
{
    let mut i: usize = 0;
    while i < temples.len()
        invariant
            i <= temples@.len(),
            forall|j: int| 0 <= j < i ==> temples@[j].temple_org_id != id,
        decreases temples@.len() - i,
    {
        if temples[i].temple_org_id == id {
            return Some(i);
        }
        i += 1;
    }
    None
}

} // verus!

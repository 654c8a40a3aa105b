//! The schedule as a grid: one row per half hour, one column per day.

use vstd::prelude::*;
use vstd::string::StringExecFns;
use crate::data::{Day, Session, Temple};
use crate::visualize::excel::{sheet_entries, views_of, ExcelWriter, SheetEntry};
use crate::visualize::html::{page_html, HTMLWriter};

pub mod excel;
pub mod html;

verus! {

/// The hour of the first row of the grid.
pub const START_HOUR: u8 = 5;

/// The hour after the last row of the grid.
pub const END_HOUR: u8 = 20;

/// The number of rows of the grid: two for each hour.
pub const SLOTS_PER_DAY: usize = 30;

/// The file formats a schedule can be written in.
#[derive(Clone, Copy, Debug, PartialEq, Eq, Structural)]
pub enum ScheduleOutputFormat {
    Html,
    Excel,
}

/// The label of a row: a time on the twelve-hour clock.
#[derive(Clone, Copy, Debug, PartialEq, Eq, Structural)]
pub struct SlotLabel {
    pub hour: u8,
    pub minute: u8,
    /// Whether the label reads PM. Noon itself is labelled AM.
    pub afternoon: bool,
}

/// What the grid shows for one half hour of one day.
#[derive(Clone, Copy, Debug, PartialEq, Eq, Structural)]
pub enum Cell {
    /// No session begins at this time.
    Blank,
    /// A session begins at this time, with this many seats left.
    Seats(u32),
}

/// How a cell is coloured.
#[derive(Clone, Copy, Debug, PartialEq, Eq, Structural)]
pub enum CellStyle {
    /// No session.
    Blank,
    /// A session with no seat left.
    Full,
    /// A session with seats left.
    Open,
}

/// The hour at which row `slot` begins.
pub open spec fn slot_hour(slot: int) -> int {
    START_HOUR + slot / 2
}

/// The minute at which row `slot` begins.
pub open spec fn slot_minute(slot: int) -> int {
    (slot % 2) * 30
}

/// The label of row `slot`.
pub open spec fn label_at(slot: int) -> SlotLabel {
    if slot_hour(slot) <= 12 {
        SlotLabel { hour: slot_hour(slot) as u8, minute: slot_minute(slot) as u8, afternoon: false }
    } else {
        SlotLabel {
            hour: (slot_hour(slot) - 12) as u8,
            minute: slot_minute(slot) as u8,
            afternoon: true,
        }
    }
}

/// Whether a session begins at this hour and minute, on whatever day.
pub open spec fn begins_at(session: Session, hour: int, minute: int) -> bool {
    session.time.time.hour == hour && session.time.time.minute == minute
}

/// The seats left in the session that begins at this hour and minute: where
/// several do, the last of them in the list counts; where none does, `None`.
pub open spec fn seats_at(sessions: Seq<Session>, hour: int, minute: int) -> Option<nat>
    decreases sessions.len(),
{
    if sessions.len() == 0 {
        None
    } else if begins_at(sessions.last(), hour, minute) {
        Some(sessions.last().details.spec_open_seats())
    } else {
        seats_at(sessions.drop_last(), hour, minute)
    }
}

/// The cell for a number of seats, or for no session.
pub open spec fn cell_for(seats: Option<nat>) -> Cell {
    match seats {
        Some(n) => Cell::Seats(n as u32),
        None => Cell::Blank,
    }
}

/// The cell of row `slot` in the column of a day with these sessions.
pub open spec fn cell_at(sessions: Seq<Session>, slot: int) -> Cell {
    cell_for(seats_at(sessions, slot_hour(slot), slot_minute(slot)))
}

/// The column of a day with these sessions: one cell per row.
pub open spec fn column_of(sessions: Seq<Session>) -> Seq<Cell> {
    Seq::new(SLOTS_PER_DAY as nat, |slot: int| cell_at(sessions, slot))
}

impl Cell {
    /// The colouring of the cell: by whether there is a session, and whether
    /// it has a seat left.
    pub open spec fn spec_style(&self) -> CellStyle {
        match *self {
            Cell::Blank => CellStyle::Blank,
            Cell::Seats(n) => if n > 0 {
                CellStyle::Open
            } else {
                CellStyle::Full
            },
        }
    }

    /// The colouring of the cell.
    pub fn style(&self) -> (style: CellStyle)
        ensures
            style == self.spec_style(),
    {
        match self {
            Cell::Blank => CellStyle::Blank,
            Cell::Seats(n) => if *n > 0 {
                CellStyle::Open
            } else {
                CellStyle::Full
            },
        }
    }
}

/// The seats shown for a time are those of a session of the list that begins
/// then, a count below zero shown as zero; nothing is shown exactly where no
/// session begins then.
pub proof fn lemma_seats_come_from_a_session(sessions: Seq<Session>, hour: int, minute: int)
    ensures
        seats_at(sessions, hour, minute) matches Some(n) ==> exists|i: int|
            0 <= i < sessions.len() && begins_at(#[trigger] sessions[i], hour, minute) && n
                == sessions[i].details.spec_open_seats(),
        seats_at(sessions, hour, minute) is None ==> forall|i: int|
            0 <= i < sessions.len() ==> !begins_at(#[trigger] sessions[i], hour, minute),
    decreases sessions.len(),
{
    if sessions.len() > 0 {
        let rest = sessions.drop_last();
        if begins_at(sessions.last(), hour, minute) {
            assert(sessions[sessions.len() - 1] == sessions.last());
        } else {
            lemma_seats_come_from_a_session(rest, hour, minute);
            if seats_at(sessions, hour, minute) is Some {
                let n = seats_at(sessions, hour, minute).unwrap();
                let i = choose|i: int|
                    0 <= i < rest.len() && begins_at(#[trigger] rest[i], hour, minute) && n
                        == rest[i].details.spec_open_seats();
                assert(sessions[i] == rest[i]);
            } else {
                assert forall|i: int| 0 <= i < sessions.len() implies !begins_at(
                    #[trigger] sessions[i],
                    hour,
                    minute,
                ) by {
                    if i < rest.len() {
                        assert(sessions[i] == rest[i]);
                    }
                }
            }
        }
    }
}

/// The labels of the rows, from the first half hour to the last.
pub fn time_labels() -> (labels: Vec<SlotLabel>)
    ensures
        labels@.len() == SLOTS_PER_DAY,
        forall|slot: int| 0 <= slot < SLOTS_PER_DAY ==> labels@[slot] == label_at(slot),
{
    let mut labels: Vec<SlotLabel> = Vec::new();
    let mut hour: u8 = START_HOUR;
    while hour < END_HOUR
        invariant
            START_HOUR <= hour <= END_HOUR,
            labels@.len() == 2 * (hour - START_HOUR),
            forall|slot: int| 0 <= slot < labels@.len() ==> labels@[slot] == label_at(slot),
        decreases END_HOUR - hour,
    {
        if hour <= 12 {
            labels.push(SlotLabel { hour, minute: 0, afternoon: false });
            labels.push(SlotLabel { hour, minute: 30, afternoon: false });
        } else {
            labels.push(SlotLabel { hour: hour - 12, minute: 0, afternoon: true });
            labels.push(SlotLabel { hour: hour - 12, minute: 30, afternoon: true });
        }
        hour += 1;
    }
    labels
}

/// The seats left in the session of this list that begins at this hour and
/// minute, a negative count taken as none.
pub fn lookup_seats(sessions: &[Session], hour: u8, minute: u8) -> (seats: Option<u32>)
    ensures
        match seats {
            Some(n) => seats_at(sessions@, hour as int, minute as int) == Some(n as nat),
            None => seats_at(sessions@, hour as int, minute as int) is None,
        },
{
    let mut i: usize = sessions.len();
    assert(sessions@.take(i as int) =~= sessions@);
    while i > 0
        invariant
            i <= sessions@.len(),
            seats_at(sessions@, hour as int, minute as int) == seats_at(
                sessions@.take(i as int),
                hour as int,
                minute as int,
            ),
        decreases i,
    {
        let session = &sessions[i - 1];
        assert(sessions@.take(i as int).last() == sessions@[i - 1]);
        assert(sessions@.take(i as int).drop_last() =~= sessions@.take(i - 1));
        if session.time.time.hour == hour && session.time.time.minute == minute {
            return Some(session.details.open_seats());
        }
        i -= 1;
    }
    assert(sessions@.take(0).len() == 0);
    None
}

/// The column of a day: for each row, the seats of the session that begins
/// then, or a blank.
pub fn day_column(day: &Day) -> (cells: Vec<Cell>)
    ensures
        cells@ == column_of(day.sessions@),
{
    let mut cells: Vec<Cell> = Vec::new();
    let mut hour: u8 = START_HOUR;
    while hour < END_HOUR
        invariant
            START_HOUR <= hour <= END_HOUR,
            cells@.len() == 2 * (hour - START_HOUR),
            forall|slot: int|
                0 <= slot < cells@.len() ==> cells@[slot] == cell_at(day.sessions@, slot),
        decreases END_HOUR - hour,
    {
        let on_the_hour = lookup_seats(day.sessions.session_list.as_slice(), hour, 0);
        let on_the_half = lookup_seats(day.sessions.session_list.as_slice(), hour, 30);
        cells.push(
            match on_the_hour {
                Some(n) => Cell::Seats(n),
                None => Cell::Blank,
            },
        );
        cells.push(
            match on_the_half {
                Some(n) => Cell::Seats(n),
                None => Cell::Blank,
            },
        );
        hour += 1;
    }
    assert(cells@ =~= column_of(day.sessions@));
    cells
}

/// The grid of a schedule: the column of each day, in the order of the days.
pub fn grid(schedules: &[Day]) -> (columns: Vec<Vec<Cell>>)
    ensures
        columns@.len() == schedules@.len(),
        forall|i: int|
            0 <= i < schedules@.len() ==> (#[trigger] columns@[i])@ == column_of(
                schedules@[i].sessions@,
            ),
{
    let mut columns: Vec<Vec<Cell>> = Vec::new();
    let mut i: usize = 0;
    while i < schedules.len()
        invariant
            i <= schedules@.len(),
            columns@.len() == i,
            forall|k: int|
                0 <= k < i ==> (#[trigger] columns@[k])@ == column_of(schedules@[k].sessions@),
        decreases schedules@.len() - i,
    {
        columns.push(day_column(&schedules[i]));
        i += 1;
    }
    columns
}

/// The name of the file a schedule is written to: the given name with the
/// extension of the format.
pub fn output_path(format: ScheduleOutputFormat, filename: &str) -> (path: String)
    ensures
        path@ == filename@ + (match format {
            ScheduleOutputFormat::Html => ".html"@,
            ScheduleOutputFormat::Excel => ".xlsx"@,
        }),
{
    match format {
        ScheduleOutputFormat::Html => String::from_str(filename).concat(".html"),
        ScheduleOutputFormat::Excel => String::from_str(filename).concat(".xlsx"),
    }
}

/// A schedule made ready for its file.
#[derive(Clone, Debug, PartialEq, Eq)]
pub enum Output {
    /// An HTML page, to be written to `path` as it stands.
    Page { path: String, text: String },
    /// A spreadsheet, to be made at `path` by these writes in order.
    Sheet { path: String, entries: Vec<SheetEntry> },
}

/// Makes a schedule ready for its file in the chosen format: the name of the
/// file, and the page or the writes of the sheet. `None` where the heading
/// of a day cannot be written.
pub fn write_output(
    schedules: &[Day],
    temple: &Temple,
    format: ScheduleOutputFormat,
    filename: &str,
) -> (output: Option<Output>)
    requires
        schedules@.len() < usize::MAX,
        format == ScheduleOutputFormat::Excel ==> schedules@.len() < u16::MAX,
        forall|i: int| 0 <= i < schedules@.len() ==> (#[trigger] schedules@[i]).date.wf(),
    ensures
        match format {
            ScheduleOutputFormat::Html => match output {
                Some(Output::Page { path, text }) => path@ == filename@ + ".html"@ && page_html(
                    schedules@,
                    temple.name@,
                ) == Some(text@),
                Some(Output::Sheet { .. }) => false,
                None => page_html(schedules@, temple.name@) is None,
            },
            ScheduleOutputFormat::Excel => match output {
                Some(Output::Sheet { path, entries }) => path@ == filename@ + ".xlsx"@
                    && sheet_entries(schedules@, temple.name@) == Some(views_of(entries@)),
                Some(Output::Page { .. }) => false,
                None => sheet_entries(schedules@, temple.name@) is None,
            },
        },
{
    let path = output_path(format, filename);
    match format {
        ScheduleOutputFormat::Html => match HTMLWriter::render(schedules, temple) {
            Some(text) => Some(Output::Page { path, text }),
            None => None,
        },
        ScheduleOutputFormat::Excel => match ExcelWriter::plan(schedules, temple) {
            Some(entries) => Some(Output::Sheet { path, entries }),
            None => None,
        },
    }
}

} // verus!

//! The layout of the spreadsheet.

use vstd::prelude::*;
use vstd::string::StringExecFns;
use crate::data::{Day, Temple};
use crate::timestamps::{formatted_date, write_date};
use crate::visualize::html::{label_text, HTMLWriter, GRID_HEADING};
use crate::visualize::{column_of, day_column, label_at, time_labels, Cell, CellStyle, SLOTS_PER_DAY};

verus! {

/// Writes a schedule as a spreadsheet.
#[derive(Clone, Copy, Debug, PartialEq, Eq, Structural)]
pub struct ExcelWriter;

/// The background colours the spreadsheet uses.
#[derive(Clone, Copy, Debug, PartialEq, Eq, Structural)]
pub enum Background {
    Red,
    Green,
    Gray,
}

/// How an entry of the sheet is formatted.
#[derive(Clone, Copy, Debug, PartialEq, Eq, Structural)]
pub enum SheetFormat {
    /// No format of its own.
    Plain,
    /// Bold, for the title.
    Title,
    /// The format of the subtitle, which sets nothing.
    Subtitle,
    /// Centred on a background of this colour.
    Fill(Background),
}

/// One write to the sheet.
#[derive(Clone, Debug, PartialEq, Eq)]
pub enum SheetEntry {
    /// A text across the columns 0 to `last_col` of a row.
    Merged { row: u32, last_col: u16, text: String, format: SheetFormat },
    /// A text in one cell.
    Text { row: u32, col: u16, text: String },
    /// A number in one cell.
    Number { row: u32, col: u16, value: u32, format: SheetFormat },
    /// A cell that holds nothing but its format.
    Blank { row: u32, col: u16, format: SheetFormat },
}

/// One write to the sheet, with its text as characters.
pub enum SheetEntryView {
    Merged { row: u32, last_col: u16, text: Seq<char>, format: SheetFormat },
    Text { row: u32, col: u16, text: Seq<char> },
    Number { row: u32, col: u16, value: u32, format: SheetFormat },
    Blank { row: u32, col: u16, format: SheetFormat },
}

impl View for SheetEntry {
    type V = SheetEntryView;

    open spec fn view(&self) -> SheetEntryView {
        match *self {
            SheetEntry::Merged { row, last_col, text, format } => SheetEntryView::Merged {
                row,
                last_col,
                text: text@,
                format,
            },
            SheetEntry::Text { row, col, text } => SheetEntryView::Text { row, col, text: text@ },
            SheetEntry::Number { row, col, value, format } => SheetEntryView::Number {
                row,
                col,
                value,
                format,
            },
            SheetEntry::Blank { row, col, format } => SheetEntryView::Blank { row, col, format },
        }
    }
}

/// The views of a list of entries, in order.
pub open spec fn views_of(entries: Seq<SheetEntry>) -> Seq<SheetEntryView> {
    Seq::new(entries.len(), |i: int| entries[i]@)
}

/// The background of a cell of this colouring.
pub open spec fn background_of(style: CellStyle) -> Background {
    match style {
        CellStyle::Open => Background::Green,
        CellStyle::Full => Background::Red,
        CellStyle::Blank => Background::Gray,
    }
}

/// The title and the subtitle, each across all columns of a schedule of
/// `days` days.
pub open spec fn header_entries(days: nat, temple_name: Seq<char>) -> Seq<SheetEntryView> {
    seq![
        SheetEntryView::Merged {
            row: 0,
            last_col: ((days + 1) % 0x1_0000) as u16,
            text: temple_name,
            format: SheetFormat::Title,
        },
        SheetEntryView::Merged {
            row: 1,
            last_col: ((days + 1) % 0x1_0000) as u16,
            text: "Available slots for endowment"@,
            format: SheetFormat::Subtitle,
        },
    ]
}

/// The labels of the rows, in the first column from the fourth row down.
pub open spec fn label_entries() -> Seq<SheetEntryView> {
    Seq::new(
        SLOTS_PER_DAY as nat,
        |slot: int| SheetEntryView::Text { row: (3 + slot) as u32, col: 0, text: label_text(label_at(slot)) },
    )
}

/// The write for a cell of the grid: the seats on green or red, or a blank
/// on gray.
pub open spec fn cell_entry(cell: Cell, row: u32, col: u16) -> SheetEntryView {
    match cell {
        Cell::Seats(n) => SheetEntryView::Number {
            row,
            col,
            value: n,
            format: SheetFormat::Fill(background_of(cell.spec_style())),
        },
        Cell::Blank => SheetEntryView::Blank {
            row,
            col,
            format: SheetFormat::Fill(background_of(cell.spec_style())),
        },
    }
}

/// The writes for the first `count` cells of a column.
pub open spec fn cell_entries(cells: Seq<Cell>, col: u16, count: nat) -> Seq<SheetEntryView> {
    Seq::new(count, |slot: int| cell_entry(cells[slot], (3 + slot) as u32, col))
}

/// The writes for a day in column `col`: its heading in the third row, then
/// its cells. `None` where the heading cannot be written.
pub open spec fn day_entries(day: Day, col: u16) -> Option<Seq<SheetEntryView>> {
    match formatted_date(
        day.date.year as int,
        day.date.month as int,
        day.date.day as int,
        GRID_HEADING@,
    ) {
        Some(heading) => Some(
            seq![SheetEntryView::Text { row: 2, col, text: heading }] + cell_entries(
                column_of(day.sessions@),
                col,
                SLOTS_PER_DAY as nat,
            ),
        ),
        None => None,
    }
}

/// The writes for these days, the first in the second column, each further
/// one in the next. `None` where one of them cannot be written.
pub open spec fn days_entries(days: Seq<Day>) -> Option<Seq<SheetEntryView>>
    decreases days.len(),
{
    if days.len() == 0 {
        Some(Seq::<SheetEntryView>::empty())
    } else {
        match (days_entries(days.drop_last()), day_entries(days.last(), days.len() as u16)) {
            (Some(before), Some(column)) => Some(before + column),
            _ => None,
        }
    }
}

/// The writes that make the sheet of a schedule, in order: title and
/// subtitle, the labels of the rows, and the column of each day.
pub open spec fn sheet_entries(days: Seq<Day>, temple_name: Seq<char>) -> Option<
    Seq<SheetEntryView>,
> {
    match days_entries(days) {
        Some(columns) => Some(header_entries(days.len(), temple_name) + label_entries() + columns),
        None => None,
    }
}

/// The views of two lists of entries, one after the other, are the views of
/// the first followed by those of the second.
pub proof fn lemma_views_of_concat(first: Seq<SheetEntry>, second: Seq<SheetEntry>)
    ensures
        views_of(first + second) == views_of(first) + views_of(second),
{
    assert(views_of(first + second) =~= views_of(first) + views_of(second));
}

/// Where the first days of a schedule cannot be written, the schedule cannot.
pub proof fn lemma_days_entries_prefix(days: Seq<Day>, count: int)
    requires
        0 <= count <= days.len(),
        days_entries(days.take(count)) is None,
    ensures
        days_entries(days) is None,
    decreases days.len() - count,
{
    if count < days.len() {
        assert(days.take(count + 1).drop_last() =~= days.take(count));
        lemma_days_entries_prefix(days, count + 1);
    } else {
        assert(days.take(count) =~= days);
    }
}

impl ExcelWriter {
    /// The row of the title, which spans the whole width.
    pub const TITLE_ROW: u32 = 0;

    /// The row of the subtitle, which spans the whole width.
    pub const SUBTITLE_ROW: u32 = 1;

    /// The row that holds the date of each day.
    pub const DATE_ROW: u32 = 2;

    /// The row of the first half hour.
    pub const FIRST_SLOT_ROW: u32 = 3;

    /// The last column of the title and the subtitle for a schedule of
    /// `days` days: the column after that of the last day, as far as a
    /// column number of sixteen bits holds it.
    pub fn last_header_column(days: usize) -> (column: u16)
        ensures
            column as int == (days + 1) % 0x1_0000,
    {
        let low: u32 = (days % 0x1_0000) as u32;
        ((low + 1) % 0x1_0000) as u16
    }

    /// The column of day `index` of the schedule: the first holds the times.
    pub fn day_column_index(index: u16) -> (column: u16)
        requires
            index < u16::MAX,
        ensures
            column == index + 1,
    {
        index + 1
    }

    /// The background of a cell.
    pub fn background(style: CellStyle) -> (colour: Background)
        ensures
            colour == background_of(style),
    {
        match style {
            CellStyle::Open => Background::Green,
            CellStyle::Full => Background::Red,
            CellStyle::Blank => Background::Gray,
        }
    }

    /// The writes for a day in column `col`.
    pub fn day_plan(day: &Day, col: u16) -> (plan: Option<Vec<SheetEntry>>)
        requires
            day.date.wf(),
        ensures
            match plan {
                Some(entries) => day_entries(*day, col) == Some(views_of(entries@)),
                None => day_entries(*day, col) is None,
            },
    {
        let heading = match write_date(day.date, GRID_HEADING) {
            Some(heading) => heading,
            None => {
                return None;
            },
        };
        let cells = day_column(day);
        let mut entries: Vec<SheetEntry> = Vec::new();
        entries.push(SheetEntry::Text { row: ExcelWriter::DATE_ROW, col, text: heading });
        let ghost head = views_of(entries@);
        let mut slot: usize = 0;
        while slot < cells.len()
            invariant
                slot <= cells@.len() == SLOTS_PER_DAY,
                cells@ == column_of(day.sessions@),
                head == seq![SheetEntryView::Text { row: 2, col, text: heading@ }],
                views_of(entries@) =~= head + cell_entries(cells@, col, slot as nat),
            decreases cells@.len() - slot,
        {
            let format = SheetFormat::Fill(ExcelWriter::background(cells[slot].style()));
            let row: u32 = ExcelWriter::FIRST_SLOT_ROW + slot as u32;
            let entry = match cells[slot] {
                Cell::Seats(value) => SheetEntry::Number { row, col, value, format },
                Cell::Blank => SheetEntry::Blank { row, col, format },
            };
            assert(entry@ == cell_entry(cells@[slot as int], (3 + slot) as u32, col));
            let ghost before = entries@;
            entries.push(entry);
            proof {
                lemma_views_of_concat(before, seq![entry]);
                assert(entries@ =~= before + seq![entry]);
                assert(views_of(seq![entry]) =~= seq![entry@]);
                assert(cell_entries(cells@, col, (slot + 1) as nat) =~= cell_entries(
                    cells@,
                    col,
                    slot as nat,
                ) + seq![entry@]);
            }
            slot += 1;
        }
        Some(entries)
    }

    /// The writes that make the sheet of a schedule, in order. `None` where
    /// the heading of a day cannot be written.
    pub fn plan(schedules: &[Day], temple: &Temple) -> (plan: Option<Vec<SheetEntry>>)
        requires
            schedules@.len() < u16::MAX,
            forall|i: int| 0 <= i < schedules@.len() ==> (#[trigger] schedules@[i]).date.wf(),
        ensures
            match plan {
                Some(entries) => sheet_entries(schedules@, temple.name@) == Some(
                    views_of(entries@),
                ),
                None => sheet_entries(schedules@, temple.name@) is None,
            },
    {
        let last_col = ExcelWriter::last_header_column(schedules.len());
        let mut entries: Vec<SheetEntry> = Vec::new();
        entries.push(
            SheetEntry::Merged {
                row: ExcelWriter::TITLE_ROW,
                last_col,
                text: temple.name.clone(),
                format: SheetFormat::Title,
            },
        );
        entries.push(
            SheetEntry::Merged {
                row: ExcelWriter::SUBTITLE_ROW,
                last_col,
                text: String::from_str("Available slots for endowment"),
                format: SheetFormat::Subtitle,
            },
        );
        assert(views_of(entries@) =~= header_entries(schedules@.len(), temple.name@));
        let labels = time_labels();
        let mut slot: usize = 0;
        while slot < labels.len()
            invariant
                slot <= labels@.len() == SLOTS_PER_DAY,
                forall|k: int| 0 <= k < SLOTS_PER_DAY ==> labels@[k] == label_at(k),
                views_of(entries@) =~= header_entries(schedules@.len(), temple.name@)
                    + label_entries().take(slot as int),
            decreases labels@.len() - slot,
        {
            assert(labels@[slot as int] == label_at(slot as int));
            let text = HTMLWriter::label(labels[slot]);
            let entry = SheetEntry::Text {
                row: ExcelWriter::FIRST_SLOT_ROW + slot as u32,
                col: 0,
                text,
            };
            let ghost before = entries@;
            entries.push(entry);
            proof {
                lemma_views_of_concat(before, seq![entry]);
                assert(entries@ =~= before + seq![entry]);
                assert(views_of(seq![entry]) =~= seq![entry@]);
                assert(label_entries().take(slot + 1) =~= label_entries().take(slot as int)
                    + seq![entry@]);
            }
            slot += 1;
        }
        assert(label_entries().take(slot as int) =~= label_entries());
        let ghost top = header_entries(schedules@.len(), temple.name@) + label_entries();
        let ghost mut columns = Seq::<SheetEntryView>::empty();
        let mut i: usize = 0;
        assert(schedules@.take(0) =~= Seq::<Day>::empty());
        while i < schedules.len()
            invariant
                i <= schedules@.len() < u16::MAX,
                forall|k: int| 0 <= k < schedules@.len() ==> (#[trigger] schedules@[k]).date.wf(),
                days_entries(schedules@.take(i as int)) == Some(columns),
                views_of(entries@) =~= top + columns,
            decreases schedules@.len() - i,
        {
            assert(schedules@.take(i + 1).drop_last() =~= schedules@.take(i as int));
            assert(schedules@.take(i + 1).last() == schedules@[i as int]);
            let col = ExcelWriter::day_column_index(i as u16);
            match ExcelWriter::day_plan(&schedules[i], col) {
                Some(column) => {
                    let mut column = column;
                    let ghost before = entries@;
                    proof {
                        columns = columns + views_of(column@);
                        lemma_views_of_concat(before, column@);
                    }
                    entries.append(&mut column);
                },
                None => {
                    proof {
                        lemma_days_entries_prefix(schedules@, i + 1);
                    }
                    return None;
                },
            }
            i += 1;
        }
        assert(schedules@.take(i as int) =~= schedules@);
        Some(entries)
    }
}

} // verus!

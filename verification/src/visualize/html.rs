//! The schedule as an HTML page.

use vstd::prelude::*;
use vstd::string::StringExecFns;
use crate::data::{Day, Temple};
use crate::text::{decimal_digits, decimal_text, digit_char, digit_text};
use crate::timestamps::{formatted_date, write_date};
use crate::visualize::{
    column_of, day_column, label_at, time_labels, Cell, CellStyle, SlotLabel, END_HOUR,
    SLOTS_PER_DAY, START_HOUR,
};

verus! {

/// Writes a schedule as an HTML page.
#[derive(Clone, Copy, Debug, PartialEq, Eq, Structural)]
pub struct HTMLWriter;

/// The form the day of a column is headed with, such as `Sat May 14`.
pub const GRID_HEADING: &'static str = "[weekday repr:short] [month repr:short] [day]";

/// The page up to the number of columns of the grid.
pub const PAGE_OPENING: &'static str =
    "<!DOCTYPE html>\n        <html>\n        \n        <head>\n        <link href=\"https://cdn.jsdelivr.net/npm/bootstrap@5.1.3/dist/css/bootstrap.min.css\" rel=\"stylesheet\" integrity=\"sha384-1BmE4kWBq78iYhFldvKuhfTAU6auU8tT94WrHftjDbrCEXSU1oBoqyl2QvZ6jIW3\" crossorigin=\"anonymous\">\n            <style>\n                .grid-container {\n                    display: grid;\n                    grid-template-columns: repeat(";

/// The page between the number of columns and the number of rows.
pub const PAGE_AFTER_COLUMNS: &'static str =
    ", 1fr);\n                    grid-template-rows: repeat(";

/// The page between the number of rows and the name of the temple.
pub const PAGE_AFTER_ROWS: &'static str =
    ", 1fr);\n                    grid-auto-flow: column;\n                    width: 300%;\n                    height: 50%;\n                }\n    \n                body {\n                    padding: 20px;\n                }\n        \n                .grid-item {\n                    border: 1px solid rgba(0, 0, 0, 0.8);\n                    padding: 5px;\n                    font-size: 15px;\n                    text-align: center;\n                }\n        \n                .header-item {\n                    grid-row-start: 0;\n                }\n        \n                .item1 {\n                    background: LightSkyBlue;\n                }\n            </style>\n        </head>\n        \n        <body>\n            <h1>";

/// The page between the name of the temple and the first cell.
pub const PAGE_AFTER_TITLE: &'static str =
    "</h1>\n            <p>Available slots for endowment</p>\n            <div class=\"grid-container\">";

/// The page after the last cell.
pub const PAGE_CLOSING: &'static str =
    "       </div>\n        </body>\n        \n        </html>";

/// What opens a cell, up to its classes.
pub const CELL_OPENING: &'static str = "<div class=\"";

/// What stands between the classes of a cell and its content.
pub const CELL_AFTER_CLASS: &'static str = "\">";

/// What closes a cell, with the line break after it.
pub const CELL_CLOSING: &'static str = "</div>\n";

/// The classes of a cell that holds a label.
pub const LABEL_CLASS: &'static str = "grid-item";

/// The classes of a cell of this colouring.
pub open spec fn class_of(style: CellStyle) -> Seq<char> {
    match style {
        CellStyle::Open => "grid-item text-white bg-success"@,
        CellStyle::Full => "grid-item text-white bg-danger"@,
        CellStyle::Blank => "grid-item bg-secondary"@,
    }
}

/// A cell of the page with these classes and this content.
pub open spec fn element(class: Seq<char>, content: Seq<char>) -> Seq<char> {
    CELL_OPENING@ + class + CELL_AFTER_CLASS@ + content + CELL_CLOSING@
}

/// A number below one hundred, written with two digits.
pub open spec fn two_digits(n: int) -> Seq<char> {
    seq![digit_char(n / 10)] + seq![digit_char(n % 10)]
}

/// A label as text: the hour, the minute with two digits, and AM or PM.
pub open spec fn label_text(label: SlotLabel) -> Seq<char> {
    decimal_digits(label.hour as nat) + ":"@ + two_digits(label.minute as int) + (
    if label.afternoon {
        " PM"@
    } else {
        " AM"@
    })
}

/// The cells of these labels.
pub open spec fn labels_html(labels: Seq<SlotLabel>) -> Seq<char>
    decreases labels.len(),
{
    if labels.len() == 0 {
        Seq::<char>::empty()
    } else {
        labels_html(labels.drop_last()) + element(LABEL_CLASS@, label_text(labels.last()))
    }
}

/// What a cell of the grid shows: the seats left, or nothing.
pub open spec fn cell_content(cell: Cell) -> Seq<char> {
    match cell {
        Cell::Seats(n) => decimal_digits(n as nat),
        Cell::Blank => Seq::<char>::empty(),
    }
}

/// The cells of a column of the grid, from the first row down.
pub open spec fn cells_html(cells: Seq<Cell>) -> Seq<char>
    decreases cells.len(),
{
    if cells.len() == 0 {
        Seq::<char>::empty()
    } else {
        cells_html(cells.drop_last()) + element(
            class_of(cells.last().spec_style()),
            cell_content(cells.last()),
        )
    }
}

/// The column of a day: its heading, then its cells. `None` where the
/// heading cannot be written.
pub open spec fn day_html(day: Day) -> Option<Seq<char>> {
    match formatted_date(
        day.date.year as int,
        day.date.month as int,
        day.date.day as int,
        GRID_HEADING@,
    ) {
        Some(heading) => Some(
            element(LABEL_CLASS@, heading) + cells_html(column_of(day.sessions@)),
        ),
        None => None,
    }
}

/// The columns of these days, in their order. `None` where one of them
/// cannot be written.
pub open spec fn days_html(days: Seq<Day>) -> Option<Seq<char>>
    decreases days.len(),
{
    if days.len() == 0 {
        Some(Seq::<char>::empty())
    } else {
        match (days_html(days.drop_last()), day_html(days.last())) {
            (Some(before), Some(column)) => Some(before + column),
            _ => None,
        }
    }
}

/// The labels of all rows of the grid.
pub open spec fn all_labels() -> Seq<SlotLabel> {
    Seq::new(SLOTS_PER_DAY as nat, |slot: int| label_at(slot))
}

/// The page for a schedule: the opening with the size of the grid and the
/// name of the temple, an empty corner, the labels of the rows, the column of
/// each day, and the closing. `None` where a day cannot be written.
pub open spec fn page_html(days: Seq<Day>, temple_name: Seq<char>) -> Option<Seq<char>> {
    match days_html(days) {
        Some(columns) => Some(
            PAGE_OPENING@ + decimal_digits(days.len() + 1) + PAGE_AFTER_COLUMNS@ + decimal_digits(
                ((END_HOUR - START_HOUR) * 2 + 1) as nat,
            ) + PAGE_AFTER_ROWS@ + temple_name + PAGE_AFTER_TITLE@ + "\n"@ + element(
                LABEL_CLASS@,
                Seq::<char>::empty(),
            ) + labels_html(all_labels()) + columns + PAGE_CLOSING@ + "\n"@,
        ),
        None => None,
    }
}

/// Where the first days of a schedule cannot be written, the schedule cannot.
pub proof fn lemma_days_html_prefix(days: Seq<Day>, count: int)
    requires
        0 <= count <= days.len(),
        days_html(days.take(count)) is None,
    ensures
        days_html(days) is None,
    decreases days.len() - count,
{
    if count < days.len() {
        assert(days.take(count + 1).drop_last() =~= days.take(count));
        lemma_days_html_prefix(days, count + 1);
    } else {
        assert(days.take(count) =~= days);
    }
}

/// A cell of the page with these classes and this content.
pub fn element_text(class: &str, content: &str) -> (text: String)
    ensures
        text@ == element(class@, content@),
{
    String::from_str(CELL_OPENING).concat(class).concat(CELL_AFTER_CLASS).concat(content).concat(
        CELL_CLOSING,
    )
}

impl HTMLWriter {
    /// The number of columns of the page's grid for a schedule of `days`
    /// days: one for the times and one for each day.
    pub fn column_count(days: usize) -> (columns: usize)
        requires
            days < usize::MAX,
        ensures
            columns == days + 1,
    {
        days + 1
    }

    /// The number of rows of the page's grid: one for the dates and two for
    /// each hour.
    pub fn row_count() -> (rows: u8)
        ensures
            rows == (END_HOUR - START_HOUR) * 2 + 1,
    {
        (END_HOUR - START_HOUR) * 2 + 1
    }

    /// The classes of a cell.
    pub fn cell_class(style: CellStyle) -> (class: &'static str)
        ensures
            class@ == class_of(style),
    {
        match style {
            CellStyle::Open => "grid-item text-white bg-success",
            CellStyle::Full => "grid-item text-white bg-danger",
            CellStyle::Blank => "grid-item bg-secondary",
        }
    }

    /// A label as text.
    pub fn label(label: SlotLabel) -> (text: String)
        requires
            label.minute < 100,
        ensures
            text@ == label_text(label),
    {
        let minute = String::from_str(digit_text(label.minute / 10)).concat(
            digit_text(label.minute % 10),
        );
        let period = if label.afternoon {
            " PM"
        } else {
            " AM"
        };
        decimal_text(label.hour as u64).concat(":").concat(minute.as_str()).concat(period)
    }

    /// The cells of the labels of all rows.
    pub fn label_cells() -> (text: String)
        ensures
            text@ == labels_html(all_labels()),
    {
        let labels = time_labels();
        assert(labels@ =~= all_labels());
        let mut text = String::new();
        let mut i: usize = 0;
        assert(labels@.take(0) =~= Seq::<SlotLabel>::empty());
        while i < labels.len()
            invariant
                i <= labels@.len(),
                labels@ == all_labels(),
                text@ == labels_html(labels@.take(i as int)),
            decreases labels@.len() - i,
        {
            assert(labels@.take(i + 1).drop_last() =~= labels@.take(i as int));
            assert(labels@.take(i + 1).last() == labels@[i as int]);
            assert(labels@[i as int] == label_at(i as int));
            let inner = HTMLWriter::label(labels[i]);
            let cell = element_text(LABEL_CLASS, inner.as_str());
            text = text.concat(cell.as_str());
            i += 1;
        }
        assert(labels@.take(i as int) =~= labels@);
        text
    }

    /// The cells of a column of the grid.
    pub fn column_cells(cells: &[Cell]) -> (text: String)
        ensures
            text@ == cells_html(cells@),
    {
        let mut text = String::new();
        let mut i: usize = 0;
        assert(cells@.take(0) =~= Seq::<Cell>::empty());
        while i < cells.len()
            invariant
                i <= cells@.len(),
                text@ == cells_html(cells@.take(i as int)),
            decreases cells@.len() - i,
        {
            assert(cells@.take(i + 1).drop_last() =~= cells@.take(i as int));
            assert(cells@.take(i + 1).last() == cells@[i as int]);
            proof {
                reveal_strlit("");
                assert(""@ =~= Seq::<char>::empty());
            }
            let class = HTMLWriter::cell_class(cells[i].style());
            let cell = match cells[i] {
                Cell::Seats(n) => element_text(class, decimal_text(n as u64).as_str()),
                Cell::Blank => element_text(class, ""),
            };
            text = text.concat(cell.as_str());
            i += 1;
        }
        assert(cells@.take(i as int) =~= cells@);
        text
    }

    /// The column of a day: its heading, then its cells.
    pub fn day_cells(day: &Day) -> (text: Option<String>)
        requires
            day.date.wf(),
        ensures
            crate::data::text_of(text) == day_html(*day),
    {
        match write_date(day.date, GRID_HEADING) {
            None => None,
            Some(heading) => {
                let column = day_column(day);
                let cells = HTMLWriter::column_cells(column.as_slice());
                Some(element_text(LABEL_CLASS, heading.as_str()).concat(cells.as_str()))
            },
        }
    }

    /// The page for a schedule of a temple. `None` where the heading of a
    /// day cannot be written.
    pub fn render(schedules: &[Day], temple: &Temple) -> (page: Option<String>)
        requires
            schedules@.len() < usize::MAX,
            forall|i: int| 0 <= i < schedules@.len() ==> (#[trigger] schedules@[i]).date.wf(),
        ensures
            crate::data::text_of(page) == page_html(schedules@, temple.name@),
    {
        let mut columns = String::new();
        let mut i: usize = 0;
        assert(schedules@.take(0) =~= Seq::<Day>::empty());
        while i < schedules.len()
            invariant
                i <= schedules@.len() < usize::MAX,
                forall|k: int| 0 <= k < schedules@.len() ==> (#[trigger] schedules@[k]).date.wf(),
                days_html(schedules@.take(i as int)) == Some(columns@),
            decreases schedules@.len() - i,
        {
            assert(schedules@.take(i + 1).drop_last() =~= schedules@.take(i as int));
            assert(schedules@.take(i + 1).last() == schedules@[i as int]);
            match HTMLWriter::day_cells(&schedules[i]) {
                Some(column) => {
                    columns = columns.concat(column.as_str());
                },
                None => {
                    proof {
                        lemma_days_html_prefix(schedules@, i + 1);
                    }
                    return None;
                },
            }
            i += 1;
        }
        assert(schedules@.take(i as int) =~= schedules@);
        let width = decimal_text(schedules.len() as u64 + 1);
        let height = decimal_text(HTMLWriter::row_count() as u64);
        let corner = element_text(LABEL_CLASS, "");
        proof {
            reveal_strlit("");
            assert(""@ =~= Seq::<char>::empty());
        }
        let labels = HTMLWriter::label_cells();
        Some(
            String::from_str(PAGE_OPENING).concat(width.as_str()).concat(PAGE_AFTER_COLUMNS).concat(
                height.as_str(),
            ).concat(PAGE_AFTER_ROWS).concat(temple.name.as_str()).concat(PAGE_AFTER_TITLE).concat(
                "\n",
            ).concat(corner.as_str()).concat(labels.as_str()).concat(columns.as_str()).concat(
                PAGE_CLOSING,
            ).concat("\n"),
        )
    }
}

} // verus!

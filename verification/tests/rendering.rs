use temple_schedule::calendar::{CalendarDate, ClockTime, LocalDateTime};
use temple_schedule::data::{Day, Session, SessionDetails, SessionsJSON, Status, Temple};
use temple_schedule::visualize::excel::{Background, ExcelWriter, SheetEntry, SheetFormat};
use temple_schedule::visualize::html::{element_text, HTMLWriter, PAGE_CLOSING, PAGE_OPENING};
use temple_schedule::visualize::{write_output, Output, ScheduleOutputFormat, SlotLabel};

fn session(hour: u8, minute: u8, seats: i32) -> Session {
    Session {
        time: LocalDateTime {
            date: CalendarDate { year: 2022, month: 5, day: 14 },
            time: ClockTime { hour, minute, second: 0 },
        },
        details: SessionDetails { remaining_online_seats_available: seats },
    }
}

fn day(day_of_month: u8, sessions: Vec<Session>) -> Day {
    Day {
        date: CalendarDate { year: 2022, month: 5, day: day_of_month },
        utc_offset_seconds: 0,
        sessions: SessionsJSON { session_list: sessions },
    }
}

fn temple(name: &str) -> Temple {
    Temple {
        name: name.to_string(),
        status: Status::Operating,
        date: None,
        temple_org_id: 1,
        country: String::new(),
        location: String::new(),
        temple_name_id: String::new(),
        city: String::new(),
        state_region: String::new(),
        sort_date: String::new(),
    }
}

#[test]
fn labels_are_written_on_the_twelve_hour_clock() {
    assert_eq!(HTMLWriter::label(SlotLabel { hour: 5, minute: 0, afternoon: false }), "5:00 AM");
    assert_eq!(HTMLWriter::label(SlotLabel { hour: 12, minute: 30, afternoon: false }), "12:30 AM");
    assert_eq!(HTMLWriter::label(SlotLabel { hour: 7, minute: 30, afternoon: true }), "7:30 PM");
    assert_eq!(HTMLWriter::label(SlotLabel { hour: 1, minute: 5, afternoon: true }), "1:05 PM");
}

#[test]
fn page_cells_carry_their_classes() {
    assert_eq!(element_text("grid-item", "x"), "<div class=\"grid-item\">x</div>\n");
    assert_eq!(element_text("grid-item bg-secondary", ""), "<div class=\"grid-item bg-secondary\"></div>\n");
}

#[test]
fn label_cells_cover_every_row() {
    let text = HTMLWriter::label_cells();
    assert_eq!(text.lines().count(), 30);
    assert_eq!(text.lines().next(), Some("<div class=\"grid-item\">5:00 AM</div>"));
    assert_eq!(text.lines().last(), Some("<div class=\"grid-item\">7:30 PM</div>"));
    assert!(text.contains("<div class=\"grid-item\">12:30 AM</div>\n<div class=\"grid-item\">1:00 PM</div>\n"));
}

#[test]
fn day_column_is_headed_by_its_date() {
    let text = HTMLWriter::day_cells(&day(14, vec![session(5, 0, -2), session(5, 30, 8)])).unwrap();
    let lines: Vec<&str> = text.lines().collect();
    assert_eq!(lines.len(), 31);
    assert_eq!(lines[0], "<div class=\"grid-item\">Sat May 14</div>");
    assert_eq!(lines[1], "<div class=\"grid-item text-white bg-danger\">0</div>");
    assert_eq!(lines[2], "<div class=\"grid-item text-white bg-success\">8</div>");
    assert_eq!(lines[3], "<div class=\"grid-item bg-secondary\"></div>");
    assert_eq!(lines[30], "<div class=\"grid-item bg-secondary\"></div>");
}

#[test]
fn page_holds_the_grid_between_opening_and_closing() {
    let days = vec![day(14, vec![session(9, 30, 4)]), day(15, vec![])];
    let page = HTMLWriter::render(&days, &temple("Provo Utah Temple")).unwrap();
    assert!(page.starts_with("<!DOCTYPE html>\n        <html>\n"));
    assert!(page.starts_with(PAGE_OPENING));
    assert!(page.contains("grid-template-columns: repeat(3, 1fr);"));
    assert!(page.contains("grid-template-rows: repeat(31, 1fr);"));
    assert!(page.contains("display: grid;"));
    assert!(page.contains(".grid-container {\n"));
    assert!(page.contains("<h1>Provo Utah Temple</h1>\n            <p>Available slots for endowment</p>"));
    assert!(page.contains("<div class=\"grid-container\">\n<div class=\"grid-item\"></div>\n<div class=\"grid-item\">5:00 AM</div>\n"));
    assert!(page.contains("<div class=\"grid-item\">7:30 PM</div>\n<div class=\"grid-item\">Sat May 14</div>\n"));
    assert!(page.contains("<div class=\"grid-item text-white bg-success\">4</div>\n"));
    assert!(page.contains("<div class=\"grid-item\">Sun May 15</div>\n"));
    assert!(page.ends_with("       </div>\n        </body>\n        \n        </html>\n"));
    assert!(page.ends_with(&format!("{}\n", PAGE_CLOSING)));
    assert_eq!(page.matches("<div class=\"grid-item").count(), 1 + 30 + 2 * 31);
}

#[test]
fn page_of_an_empty_schedule_has_the_labels_only() {
    let page = HTMLWriter::render(&[], &temple("T")).unwrap();
    assert!(page.contains("grid-template-columns: repeat(1, 1fr);"));
    assert_eq!(page.matches("<div class=\"grid-item").count(), 31);
}

#[test]
fn sheet_begins_with_title_and_subtitle() {
    let days = vec![day(14, vec![session(9, 30, 4)]), day(15, vec![session(5, 0, -1)])];
    let entries = ExcelWriter::plan(&days, &temple("Provo Utah Temple")).unwrap();
    assert_eq!(entries.len(), 2 + 30 + 2 * 31);
    assert_eq!(
        entries[0],
        SheetEntry::Merged { row: 0, last_col: 3, text: "Provo Utah Temple".to_string(), format: SheetFormat::Title }
    );
    assert_eq!(
        entries[1],
        SheetEntry::Merged {
            row: 1,
            last_col: 3,
            text: "Available slots for endowment".to_string(),
            format: SheetFormat::Subtitle
        }
    );
}

#[test]
fn sheet_holds_labels_then_a_column_for_each_day() {
    let days = vec![day(14, vec![session(9, 30, 4)]), day(15, vec![session(5, 0, -1)])];
    let entries = ExcelWriter::plan(&days, &temple("T")).unwrap();
    assert_eq!(entries[2], SheetEntry::Text { row: 3, col: 0, text: "5:00 AM".to_string() });
    assert_eq!(entries[31], SheetEntry::Text { row: 32, col: 0, text: "7:30 PM".to_string() });
    assert_eq!(entries[32], SheetEntry::Text { row: 2, col: 1, text: "Sat May 14".to_string() });
    assert_eq!(
        entries[33],
        SheetEntry::Blank { row: 3, col: 1, format: SheetFormat::Fill(Background::Gray) }
    );
    assert_eq!(
        entries[32 + 1 + 9],
        SheetEntry::Number { row: 12, col: 1, value: 4, format: SheetFormat::Fill(Background::Green) }
    );
    assert_eq!(entries[63], SheetEntry::Text { row: 2, col: 2, text: "Sun May 15".to_string() });
    assert_eq!(
        entries[64],
        SheetEntry::Number { row: 3, col: 2, value: 0, format: SheetFormat::Fill(Background::Red) }
    );
    assert_eq!(
        entries[93],
        SheetEntry::Blank { row: 32, col: 2, format: SheetFormat::Fill(Background::Gray) }
    );
}

#[test]
fn output_is_made_in_the_chosen_format() {
    let days = vec![day(14, vec![session(9, 30, 4)])];
    let t = temple("T");
    match write_output(&days, &t, ScheduleOutputFormat::Html, "schedule") {
        Some(Output::Page { path, text }) => {
            assert_eq!(path, "schedule.html");
            assert_eq!(Some(text), HTMLWriter::render(&days, &t));
        }
        other => panic!("no page came out: {:?}", other),
    }
    match write_output(&days, &t, ScheduleOutputFormat::Excel, "schedule") {
        Some(Output::Sheet { path, entries }) => {
            assert_eq!(path, "schedule.xlsx");
            assert_eq!(Some(entries), ExcelWriter::plan(&days, &t));
        }
        other => panic!("no sheet came out: {:?}", other),
    }
}

#[test]
fn sessions_are_read_from_records_in_order() {
    let records = vec![("2022-05-14T09:30:00".to_string(), 4), ("2022-05-14T05:00:00".to_string(), -2)];
    let sessions = SessionsJSON::from_records(&records).expect("two timestamps");
    assert_eq!(sessions.session_list.len(), 2);
    assert_eq!(sessions.session_list[0].time.time, ClockTime { hour: 9, minute: 30, second: 0 });
    assert_eq!(sessions.session_list[0].details.remaining_online_seats_available, 4);
    assert_eq!(sessions.session_list[1].time.time, ClockTime { hour: 5, minute: 0, second: 0 });
    assert_eq!(sessions.session_list[1].details.remaining_online_seats_available, -2);
    assert!(SessionsJSON::from_records(&[]).unwrap().session_list.is_empty());
}

#[test]
fn one_unreadable_record_leaves_nothing_of_the_day() {
    let records = vec![("2022-05-14T09:30:00".to_string(), 4), ("noon".to_string(), 1)];
    assert!(SessionsJSON::from_records(&records).is_none());
}

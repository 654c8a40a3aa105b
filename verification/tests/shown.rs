use temple_schedule::calendar::{CalendarDate, ClockTime, LocalDateTime};
use temple_schedule::data::{AppointmentJSON, Day, Session, SessionDetails, SessionsJSON};
use temple_schedule::text::{decimal_text, digit_text};

fn session(hour: u8, minute: u8, seats: i32) -> Session {
    Session {
        time: LocalDateTime {
            date: CalendarDate { year: 2022, month: 5, day: 14 },
            time: ClockTime { hour, minute, second: 0 },
        },
        details: SessionDetails { remaining_online_seats_available: seats },
    }
}

#[test]
fn numbers_are_written_in_decimal() {
    assert_eq!(decimal_text(0), "0");
    assert_eq!(decimal_text(7), "7");
    assert_eq!(decimal_text(10), "10");
    assert_eq!(decimal_text(109), "109");
    assert_eq!(decimal_text(4294967295), "4294967295");
    assert_eq!(digit_text(0), "0");
    assert_eq!(digit_text(9), "9");
}

#[test]
fn session_is_shown_with_its_time_and_seats() {
    assert_eq!(session(9, 30, 12).to_text(), Some("09:30 AM - remaining seats: 12".to_string()));
    assert_eq!(session(13, 0, 0).to_text(), Some("01:00 PM - remaining seats: 0".to_string()));
    assert_eq!(session(0, 5, 3).to_text(), Some("12:05 AM - remaining seats: 3".to_string()));
}

#[test]
fn session_with_negative_seats_is_shown_with_zero() {
    assert_eq!(session(9, 30, -2).to_text(), Some("09:30 AM - remaining seats: 0".to_string()));
}

#[test]
fn sessions_are_shown_line_by_line() {
    let sessions = SessionsJSON { session_list: vec![session(9, 30, 1), session(10, 0, 2)] };
    assert_eq!(
        sessions.to_text(),
        Some("09:30 AM - remaining seats: 1\n10:00 AM - remaining seats: 2\n".to_string())
    );
    assert_eq!(SessionsJSON { session_list: vec![] }.to_text(), Some(String::new()));
}

#[test]
fn day_is_shown_with_its_heading() {
    let day = Day {
        date: CalendarDate { year: 2022, month: 5, day: 14 },
        utc_offset_seconds: -21600,
        sessions: SessionsJSON { session_list: vec![session(9, 30, 1)] },
    };
    assert_eq!(day.to_text(), Some("May 14, 2022 (Sat)\n09:30 AM - remaining seats: 1\n".to_string()));
}

#[test]
fn appointment_is_shown_with_day_time_and_ordinance() {
    let appointment =
        AppointmentJSON::from_parts("proxy_sealing".to_string(), "2022-05-04T23:00:00Z", "09:30").unwrap();
    assert_eq!(appointment.to_text(), Some("May 4, 2022 at 9:30 AM - Sealing".to_string()));
}

#[test]
fn appointment_with_unknown_ordinance_is_not_shown() {
    let appointment =
        AppointmentJSON::from_parts("picnic".to_string(), "2022-05-04T23:00:00Z", "09:30").unwrap();
    assert_eq!(appointment.to_text(), None);
}

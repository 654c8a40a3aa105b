use temple_schedule::calendar::{CalendarDate, ClockTime, LocalDateTime};
use temple_schedule::data::{
    find_temple, AppointmentJSON, FetchRange, OrdinanceType, Session, SessionDetails, Status, Temple,
};
use temple_schedule::text::same_text;
use temple_schedule::{serde_date, serde_status};

fn temple(name: &str, id: u32) -> Temple {
    Temple {
        name: name.to_string(),
        status: Status::Operating,
        date: None,
        temple_org_id: id,
        country: "United States".to_string(),
        location: String::new(),
        temple_name_id: String::new(),
        city: String::new(),
        state_region: String::new(),
        sort_date: String::new(),
    }
}

#[test]
fn negative_seat_count_is_reported_as_zero() {
    assert_eq!(SessionDetails { remaining_online_seats_available: -2 }.open_seats(), 0);
    assert_eq!(SessionDetails { remaining_online_seats_available: i32::MIN }.open_seats(), 0);
}

#[test]
fn seat_count_that_is_not_negative_is_kept() {
    assert_eq!(SessionDetails { remaining_online_seats_available: 0 }.open_seats(), 0);
    assert_eq!(SessionDetails { remaining_online_seats_available: 17 }.open_seats(), 17);
    assert_eq!(SessionDetails { remaining_online_seats_available: i32::MAX }.open_seats(), 2147483647);
}

#[test]
fn session_timestamp_is_read_as_local_time() {
    let session = Session::from_parts("2022-05-14T09:30:00", -2).expect("a timestamp");
    assert_eq!(
        session.time,
        LocalDateTime {
            date: CalendarDate { year: 2022, month: 5, day: 14 },
            time: ClockTime { hour: 9, minute: 30, second: 0 },
        }
    );
    assert_eq!(session.details.remaining_online_seats_available, -2);
    assert_eq!(session.details.open_seats(), 0);
}

#[test]
fn session_timestamp_that_is_none_is_refused() {
    assert_eq!(Session::from_parts("2022-05-14", 1), None);
    assert_eq!(Session::from_parts("2022-02-30T09:30:00", 1), None);
    assert_eq!(Session::from_parts("2022-05-14T09:30:00Z", 1), None);
    assert_eq!(Session::from_parts("", 1), None);
}

#[test]
fn ordinance_names_are_read_in_any_case() {
    assert_eq!(OrdinanceType::from_str("BAPTISM"), Ok(OrdinanceType::Baptism));
    assert_eq!(OrdinanceType::from_str("baptism"), Ok(OrdinanceType::Baptism));
    assert_eq!(OrdinanceType::from_str("Initiatory"), Ok(OrdinanceType::Initiatory));
    assert_eq!(OrdinanceType::from_str("endowment"), Ok(OrdinanceType::Endowment));
    assert_eq!(OrdinanceType::from_str("SEALING"), Ok(OrdinanceType::Sealing));
    assert_eq!(OrdinanceType::from_str("proxy_sealing"), Ok(OrdinanceType::Sealing));
}

#[test]
fn unknown_ordinance_name_is_quoted_in_upper_case() {
    assert_eq!(OrdinanceType::from_str("wedding"), Err("Unknown ordinance type WEDDING".to_string()));
    assert_eq!(OrdinanceType::from_str(""), Err("Unknown ordinance type ".to_string()));
    assert_eq!(
        OrdinanceType::from_str("PROXY_ENDOWMENT"),
        Err("Unknown ordinance type PROXY_ENDOWMENT".to_string())
    );
}

#[test]
fn ordinance_from_upper_does_not_fold_case() {
    assert_eq!(OrdinanceType::from_upper("SEALING"), Some(OrdinanceType::Sealing));
    assert_eq!(OrdinanceType::from_upper("sealing"), None);
}

#[test]
fn ordinances_have_their_names() {
    assert_eq!(OrdinanceType::Baptism.name(), "Baptism");
    assert_eq!(OrdinanceType::Initiatory.name(), "Initiatory");
    assert_eq!(OrdinanceType::Endowment.name(), "Endowment");
    assert_eq!(OrdinanceType::Sealing.name(), "Sealing");
}

#[test]
fn appointment_is_read_from_its_parts() {
    let appointment =
        AppointmentJSON::from_parts("PROXY_SEALING".to_string(), "2022-05-14T15:00:00-06:00", "09:30")
            .expect("a timestamp and a time");
    assert_eq!(appointment.appointment_type, "PROXY_SEALING");
    assert_eq!(appointment.appointment_date_time.date, CalendarDate { year: 2022, month: 5, day: 14 });
    assert_eq!(appointment.appointment_date_time.time, ClockTime { hour: 15, minute: 0, second: 0 });
    assert_eq!(appointment.appointment_utc_offset_seconds, -21600);
    assert_eq!(appointment.appointment_time, ClockTime { hour: 9, minute: 30, second: 0 });
    assert_eq!(appointment.ordinance_type(), OrdinanceType::Sealing);
    assert_eq!(appointment.checked_ordinance_type(), Some(OrdinanceType::Sealing));
}

#[test]
fn appointment_time_of_day_comes_from_the_time_field() {
    let appointment =
        AppointmentJSON::from_parts("ENDOWMENT".to_string(), "2022-05-14T00:00:00Z", "18:45").unwrap();
    assert_eq!(
        appointment.local_time(),
        LocalDateTime {
            date: CalendarDate { year: 2022, month: 5, day: 14 },
            time: ClockTime { hour: 18, minute: 45, second: 0 },
        }
    );
}

#[test]
fn appointment_with_unreadable_times_is_refused() {
    assert!(AppointmentJSON::from_parts("ENDOWMENT".to_string(), "2022-05-14", "18:45").is_none());
    assert!(AppointmentJSON::from_parts("ENDOWMENT".to_string(), "2022-05-14T00:00:00Z", "6pm").is_none());
    assert!(AppointmentJSON::from_parts("ENDOWMENT".to_string(), "2022-05-14T00:00:00Z", "25:00").is_none());
}

#[test]
fn appointment_with_unknown_ordinance_has_no_checked_type() {
    let appointment =
        AppointmentJSON::from_parts("PICNIC".to_string(), "2022-05-14T00:00:00Z", "18:45").unwrap();
    assert_eq!(appointment.checked_ordinance_type(), None);
}

#[test]
fn status_is_read_in_any_case() {
    assert_eq!(serde_status::deserialize("OPERATING"), Ok(Status::Operating));
    assert_eq!(serde_status::deserialize("Renovation"), Ok(Status::Renovation));
    assert_eq!(serde_status::deserialize("construction"), Ok(Status::Construction));
    assert_eq!(serde_status::deserialize("announced"), Ok(Status::Announced));
}

#[test]
fn unknown_status_is_quoted_in_upper_case() {
    assert_eq!(
        serde_status::deserialize("closed"),
        Err("Unable to parse status from string CLOSED".to_string())
    );
}

#[test]
fn status_is_written_in_upper_case_and_read_back() {
    for status in [Status::Renovation, Status::Construction, Status::Operating, Status::Announced] {
        assert_eq!(serde_status::deserialize(serde_status::serialize(&status)), Ok(status));
    }
    assert_eq!(serde_status::serialize(&Status::Renovation), "RENOVATION");
    assert_eq!(serde_status::serialize(&Status::Construction), "CONSTRUCTION");
    assert_eq!(serde_status::serialize(&Status::Operating), "OPERATING");
    assert_eq!(serde_status::serialize(&Status::Announced), "ANNOUNCED");
    assert_eq!(serde_status::from_upper("operating"), None);
}

#[test]
fn dedication_day_is_written_with_the_month_name() {
    let day = CalendarDate { year: 1893, month: 4, day: 6 };
    assert_eq!(serde_date::serialize(&Some(day)), Some("6 April 1893".to_string()));
    assert_eq!(
        serde_date::serialize(&Some(CalendarDate { year: 2020, month: 12, day: 25 })),
        Some("25 December 2020".to_string())
    );
    assert_eq!(serde_date::serialize(&None), None);
}

#[test]
fn dedication_day_is_read_back() {
    assert_eq!(serde_date::deserialize("6 April 1893"), Some(CalendarDate { year: 1893, month: 4, day: 6 }));
    assert_eq!(serde_date::deserialize("17 October 2021"), Some(CalendarDate { year: 2021, month: 10, day: 17 }));
}

#[test]
fn dedication_day_that_is_no_date_reads_as_none() {
    assert_eq!(serde_date::deserialize(""), None);
    assert_eq!(serde_date::deserialize("Announced"), None);
    assert_eq!(serde_date::deserialize("31 February 2021"), None);
}

#[test]
fn fetch_range_comes_from_the_count() {
    assert_eq!(FetchRange::from_count(0), FetchRange::ThisMonthFromToday);
    assert_eq!(FetchRange::from_count(1), FetchRange::NumberOfDays(1));
    assert_eq!(FetchRange::from_count(u32::MAX), FetchRange::NumberOfDays(u32::MAX));
}

#[test]
fn temple_is_found_by_its_identifier() {
    let temples = vec![temple("A", 10), temple("B", 20), temple("C", 20)];
    assert_eq!(find_temple(&temples, 10), Some(0));
    assert_eq!(find_temple(&temples, 20), Some(1));
    assert_eq!(find_temple(&temples, 30), None);
    assert_eq!(find_temple(&[], 10), None);
}

#[test]
fn same_text_compares_characters() {
    assert!(same_text("POST", "POST"));
    assert!(!same_text("POST", "post"));
    assert!(!same_text("POST", "POSTS"));
    assert!(same_text("", ""));
}

#[test]
fn dedication_day_is_shown_in_short_form() {
    let mut provo = temple("Provo", 1);
    assert_eq!(provo.dedication_text(), "");
    provo.date = Some(CalendarDate { year: 1893, month: 4, day: 6 });
    assert_eq!(provo.dedication_text(), "Apr 6, 1893");
}

#[test]
fn temple_is_read_from_its_parts() {
    let read = Temple::from_parts(
        "Salt Lake Temple".to_string(),
        "Renovation",
        "6 April 1893",
        4020,
        "United States".to_string(),
        "Salt Lake City, Utah".to_string(),
        "salt-lake-temple".to_string(),
        "Salt Lake City".to_string(),
        "Utah".to_string(),
        "1893-04-06".to_string(),
    )
    .expect("a known status");
    assert_eq!(read.name, "Salt Lake Temple");
    assert_eq!(read.status, Status::Renovation);
    assert_eq!(read.date, Some(CalendarDate { year: 1893, month: 4, day: 6 }));
    assert_eq!(read.temple_org_id, 4020);
    assert_eq!(read.country, "United States");
    assert_eq!(read.location, "Salt Lake City, Utah");
    assert_eq!(read.temple_name_id, "salt-lake-temple");
    assert_eq!(read.city, "Salt Lake City");
    assert_eq!(read.state_region, "Utah");
    assert_eq!(read.sort_date, "1893-04-06");
}

#[test]
fn temple_without_a_date_has_no_day_of_dedication() {
    let read = Temple::from_parts(
        "T".to_string(),
        "ANNOUNCED",
        "Announced 4 April 2021",
        1,
        String::new(),
        String::new(),
        String::new(),
        String::new(),
        String::new(),
        String::new(),
    )
    .unwrap();
    assert_eq!(read.status, Status::Announced);
    assert_eq!(read.date, None);
}

#[test]
fn temple_with_unknown_status_is_refused() {
    let read = Temple::from_parts(
        "T".to_string(),
        "closed",
        "6 April 1893",
        1,
        String::new(),
        String::new(),
        String::new(),
        String::new(),
        String::new(),
        String::new(),
    );
    assert_eq!(read.err(), Some("Unable to parse status from string CLOSED".to_string()));
}

#[test]
fn appointments_are_read_in_the_order_received() {
    let records = vec![
        ("ENDOWMENT".to_string(), "2022-06-02T00:00:00Z".to_string(), "18:45".to_string()),
        ("BAPTISM".to_string(), "2022-05-14T00:00:00Z".to_string(), "09:30".to_string()),
        ("ENDOWMENT".to_string(), "2022-06-02T00:00:00Z".to_string(), "18:45".to_string()),
    ];
    let appointments = AppointmentJSON::from_records(&records).expect("three appointments");
    assert_eq!(appointments.len(), 3);
    assert_eq!(appointments[0].appointment_type, "ENDOWMENT");
    assert_eq!(appointments[0].appointment_date_time.date, CalendarDate { year: 2022, month: 6, day: 2 });
    assert_eq!(appointments[1].appointment_type, "BAPTISM");
    assert_eq!(appointments[1].appointment_time, ClockTime { hour: 9, minute: 30, second: 0 });
    assert_eq!(appointments[2].appointment_type, "ENDOWMENT");
    assert!(AppointmentJSON::from_records(&[]).unwrap().is_empty());
}

#[test]
fn one_unreadable_appointment_leaves_nothing() {
    let records = vec![
        ("ENDOWMENT".to_string(), "2022-06-02T00:00:00Z".to_string(), "18:45".to_string()),
        ("BAPTISM".to_string(), "tomorrow".to_string(), "09:30".to_string()),
    ];
    assert!(AppointmentJSON::from_records(&records).is_none());
}

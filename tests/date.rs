use accounts_application::date::{format_date, format_timestamp, now, parse_date, today, Date, Timestamp};

#[test]
fn test_parse_date() {
    let result = parse_date("2025-10-04");
    assert!(result.is_ok());
    let date = result.unwrap();
    assert_eq!(date.year, 2025);
    assert_eq!(date.month, 10);
    assert_eq!(date.day, 4);
}

#[test]
fn test_format_date() {
    let date = Date::from_ymd(2025, 10, 4).unwrap();
    assert_eq!(format_date(&date), "2025-10-04");
}

#[test]
fn calendar_days() {
    assert!(Date::from_ymd(2024, 2, 29).is_some());
    assert!(Date::from_ymd(2025, 2, 29).is_none());
    assert!(Date::from_ymd(1900, 2, 29).is_none());
    assert!(Date::from_ymd(2000, 2, 29).is_some());
    assert!(Date::from_ymd(2025, 4, 31).is_none());
    assert!(Date::from_ymd(2025, 13, 1).is_none());
    assert!(parse_date("2025-02-30").is_err());
}

#[test]
fn clock_and_instants() {
    let t = now();
    assert!(t.secs > 1_600_000_000);
    assert!(format_timestamp(&t).ends_with("+00:00"));
    assert!(today().year >= 2020);
    let epoch = Timestamp { secs: 0, nanos: 0 };
    assert_eq!(format_timestamp(&epoch), "1970-01-01T00:00:00+00:00");
}

use tabby::event::{create_event_logger, event_file_name, EventService, EventWriter, WriteStep};

#[test]
fn event_file_names_by_utc_day() {
    assert_eq!(event_file_name(0, 0), Some("1970-01-01.json".to_string()));
    assert_eq!(event_file_name(1_609_459_200, 0), Some("2021-01-01.json".to_string()));
    assert_eq!(event_file_name(1_609_545_599, 999_999_999), Some("2021-01-01.json".to_string()));
    assert_eq!(event_file_name(1_609_545_600, 0), Some("2021-01-02.json".to_string()));
    assert_eq!(event_file_name(i64::MAX, 0), None);
    assert_eq!(event_file_name(951_782_400, 0), Some("2000-02-29.json".to_string()));
    assert_eq!(event_file_name(-1, 0), Some("1969-12-31.json".to_string()));
    assert_eq!(event_file_name(-62_167_219_200, 0), Some("0000-01-01.json".to_string()));
    assert_eq!(event_file_name(-62_167_219_201, 0), Some("-0001-12-31.json".to_string()));
    assert_eq!(event_file_name(253_402_300_800, 0), Some("+10000-01-01.json".to_string()));
}

#[test]
fn event_file_names_at_second_fractions() {
    assert_eq!(event_file_name(59, 1_500_000_000), Some("1970-01-01.json".to_string()));
    assert_eq!(event_file_name(58, 1_500_000_000), None);
    assert_eq!(event_file_name(59, 2_000_000_000), None);
    assert_eq!(event_file_name(58, 999_999_999), Some("1970-01-01.json".to_string()));
}

#[test]
fn first_write_opens_a_file() {
    let mut w = EventWriter::new();
    assert_eq!(w.filename(), None);
    assert!(!w.flush());
    let step = w.write_line_to("2024-05-01.json".to_string(), "{\"a\":1}");
    assert_eq!(
        step,
        WriteStep::Rotate {
            flush_previous: false,
            file_name: "2024-05-01.json".to_string(),
            line: "{\"a\":1}\n".to_string(),
        }
    );
    assert_eq!(w.filename(), Some(&"2024-05-01.json".to_string()));
    assert!(w.flush());
}

#[test]
fn writer_swaps_file_when_the_day_changes() {
    let mut w = EventWriter::with_open_file("2021-01-01.json".to_string());
    // 2024-05-01T12:00:00Z
    let step = w.write_line(1_714_564_800, 0, "test data").unwrap();
    assert_eq!(
        step,
        WriteStep::Rotate {
            flush_previous: true,
            file_name: "2024-05-01.json".to_string(),
            line: "test data\n".to_string(),
        }
    );
    assert_eq!(w.filename(), Some(&"2024-05-01.json".to_string()));
    // later the same day: appended to the same file
    let step = w.write_line(1_714_600_000, 5, "more").unwrap();
    assert_eq!(step, WriteStep::Append { line: "more\n".to_string() });
    assert_eq!(w.filename(), Some(&"2024-05-01.json".to_string()));
}

#[test]
fn write_at_an_instant_without_a_date_changes_nothing() {
    let mut w = EventWriter::with_open_file("2021-01-01.json".to_string());
    assert_eq!(w.write_line(i64::MAX, 0, "x"), None);
    assert_eq!(w.filename(), Some(&"2021-01-01.json".to_string()));
}

#[test]
fn event_logger_is_the_event_service() {
    let EventService = create_event_logger();
}

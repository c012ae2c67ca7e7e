use mdevents::calendar::{format_date, format_time, Date, Time};
use mdevents::model::{EventModel, EventParseError};
use mdevents::parsing::{file_is_event, line_is_event};

fn d(year: i32, month: u8, day: u8) -> Date {
    Date { year, month, day }
}

fn t(hour: u8, minute: u8) -> Time {
    Time { hour, minute }
}

#[test]
fn event_lines_are_recognized() {
    let good = vec![
        "- [ ] (21 Nov) (5:30PM-10PM) (713 Music Hall, Houston) Pierce the Veil & Dayseeker",
        "- [x] (1 Jan) () () New year",
        "- [,] (1 Jan) () () Odd marker",
        "  - [ ] (1 Jan) () () Indented line",
        "- [ ]  (1 Jan)  ()  (Austin)  Wide spacing",
        "- [ ] (a) (b) (c)",
    ];
    for line in good {
        assert!(line_is_event(line), "should match: {line}");
    }
}

#[test]
fn non_event_lines_are_rejected() {
    let bad = vec![
        "",
        "Pierce the Veil & Dayseeker",
        "- [ ] (21 Nov) (5:30PM-10PM) no third group",
        "- [] (a) (b) (c) missing marker char",
        "- [y] (a) (b) (c) wrong marker char",
        "- [ ](a) (b) (c) no space after marker",
        "- [ ] (a)(b) (c) glued groups",
        "* [ ] (a) (b) (c) wrong bullet",
    ];
    for line in bad {
        assert!(!line_is_event(line), "should not match: {line}");
    }
}

#[test]
fn extract_fields_example() {
    let line = "- [ ] (21 Nov) (5:30PM-10PM) (713 Music Hall, Houston) Pierce the Veil & Dayseeker";
    let (date, time, place, title) = EventModel::extract_from_line(line).unwrap();
    assert_eq!(date, "21 Nov");
    assert_eq!(time, "5:30PM-10PM");
    assert_eq!(place, "713 Music Hall, Houston");
    assert_eq!(title, "Pierce the Veil & Dayseeker");
}

#[test]
fn extract_keeps_later_parentheses_in_title() {
    let line = "- [ ] (1 Nov) () (a) t (x) y";
    let (date, time, place, title) = EventModel::extract_from_line(line).unwrap();
    assert_eq!(date, "1 Nov");
    assert_eq!(time, "");
    assert_eq!(place, "a");
    assert_eq!(title, "t (x) y");
}

#[test]
fn extract_needs_title_segment() {
    let line = "- [ ] (1 Nov) (6 PM) (x)";
    assert!(line_is_event(line));
    let r = EventModel::extract_from_line(line);
    assert!(matches!(r, Err(EventParseError::FieldExtractionFailed)));
}

#[test]
fn parse_date_single_default_year() {
    let r = EventModel::parse_date_tup_with_year("25 Feb", 2024).unwrap();
    assert_eq!(r, (Some(d(2024, 2, 25)), None));
}

#[test]
fn parse_date_same_month_range() {
    let r = EventModel::parse_date_tup_with_year("24-25 Feb 2023", 1999).unwrap();
    assert_eq!(r, (Some(d(2023, 2, 24)), Some(d(2023, 2, 25))));
}

#[test]
fn parse_date_cross_month_range() {
    let r = EventModel::parse_date_tup_with_year("24Jan-25Feb2023", 1999).unwrap();
    assert_eq!(r, (Some(d(2023, 1, 24)), Some(d(2023, 2, 25))));
}

#[test]
fn parse_date_range_default_year() {
    let r = EventModel::parse_date_tup_with_year("24-25 Feb", 2021).unwrap();
    assert_eq!(r, (Some(d(2021, 2, 24)), Some(d(2021, 2, 25))));
}

#[test]
fn parse_date_two_digit_year_is_literal() {
    let r = EventModel::parse_date_tup_with_year("25 Feb 99", 2000).unwrap();
    assert_eq!(r, (Some(d(99, 2, 25)), None));
}

#[test]
fn parse_date_ambient_year_is_current() {
    let (start, end) = EventModel::parse_date_tup("25 Feb").unwrap();
    let start = start.unwrap();
    assert!(end.is_none());
    assert_eq!((start.month, start.day), (2, 25));
    assert!(start.year >= 2024 && start.year <= 9999);
}

#[test]
fn parse_time_empty_is_all_day() {
    let r = EventModel::parse_time_tup("").unwrap();
    assert_eq!(r, (None, None));
}

#[test]
fn parse_time_bare_hour() {
    let r = EventModel::parse_time_tup("6 PM").unwrap();
    assert_eq!(r, (Some(t(18, 0)), None));
}

#[test]
fn parse_time_full_single() {
    let r = EventModel::parse_time_tup("5:30 PM").unwrap();
    assert_eq!(r, (Some(t(17, 30)), None));
}

#[test]
fn parse_time_range_inherits_meridiem() {
    let r = EventModel::parse_time_tup("6-7 AM").unwrap();
    assert_eq!(r, (Some(t(6, 0)), Some(t(7, 0))));
}

#[test]
fn parse_time_range_independent_meridiems() {
    let r = EventModel::parse_time_tup("6PM-7 AM").unwrap();
    assert_eq!(r, (Some(t(18, 0)), Some(t(7, 0))));
}

#[test]
fn parse_time_range_mixed_minutes() {
    let r = EventModel::parse_time_tup("5:30PM-10PM").unwrap();
    assert_eq!(r, (Some(t(17, 30)), Some(t(22, 0))));
}

#[test]
fn parse_time_range_borrowed_meridiem_with_minutes() {
    let r = EventModel::parse_time_tup("6-7:30 PM").unwrap();
    assert_eq!(r, (Some(t(18, 0)), Some(t(19, 30))));
}

#[test]
fn parse_date_cross_month_short_names() {
    let r = EventModel::parse_date_tup_with_year("28 Feb - 2 Apr 2023", 1999).unwrap();
    assert_eq!(r, (Some(d(2023, 2, 28)), Some(d(2023, 4, 2))));
}

#[test]
fn parse_date_full_month_name_matches_shape_only() {
    // "April" fits the three-to-nine-letter month shape, so the text is not
    // rejected as an unrecognized shape; whether the name resolves is the
    // calendar parser's decision, and chrono's short-name format declines it.
    let r = EventModel::parse_date_tup_with_year("28 Feb - 2 April 2023", 1999);
    assert!(matches!(r, Err(EventParseError::DateParseFailure(_))));
}

#[test]
fn parse_time_range_bad_side_degrades() {
    // The start hour is out of range for the clock parser, so that side
    // drops to None while the end survives.
    let r = EventModel::parse_time_tup("13-7 PM").unwrap();
    assert_eq!(r, (None, Some(t(19, 0))));
}

#[test]
fn build_event_minimal_line() {
    let ev = EventModel::from_line("- [ ] (24-25 Feb 24) () () Excision".to_string()).unwrap();
    assert_eq!(ev.start_date, d(24, 2, 24));
    assert_eq!(ev.end_date, d(24, 2, 25));
    assert_eq!(ev.start_time, None);
    assert_eq!(ev.end_time, None);
    assert_eq!(ev.place, "");
    assert_eq!(ev.title, "Excision");
}

#[test]
fn build_event_full_line() {
    let ev = EventModel::from_line_with_year(
        "- [ ] (21 Nov) (5:30PM-10PM) (713 Music Hall, Houston) Pierce the Veil & Dayseeker",
        2023,
    )
    .unwrap();
    assert_eq!(ev.start_date, d(2023, 11, 21));
    assert_eq!(ev.end_date, d(2023, 11, 21));
    assert_eq!(ev.start_time, Some(t(17, 30)));
    assert_eq!(ev.end_time, Some(t(22, 0)));
    assert_eq!(ev.place, "713 Music Hall, Houston");
    assert_eq!(ev.title, "Pierce the Veil & Dayseeker");
}

#[test]
fn build_event_trims_title() {
    let ev = EventModel::from_line("- [ ] (28-29 Oct) () (Austin) Freaky Deaky '23 ".to_string())
        .unwrap();
    assert_eq!(ev.title, "Freaky Deaky '23");
    assert_eq!(ev.place, "Austin");
}

#[test]
fn build_event_empty_title_fails() {
    let r = EventModel::from_line("- [ ] (24-25 Feb 24) () () ".to_string());
    assert!(matches!(r, Err(EventParseError::EmptyTitle)));
    let r = EventModel::from_line("- [ ] (24-25 Feb 24) () ()   \t".to_string());
    assert!(matches!(r, Err(EventParseError::EmptyTitle)));
}

#[test]
fn build_event_not_an_event_line() {
    let r = EventModel::from_line("Polyphia at the House of Blues".to_string());
    assert!(matches!(r, Err(EventParseError::NotAnEventLine)));
}

#[test]
fn build_event_bad_date_shape() {
    let r = EventModel::from_line("- [ ] (sometime soon) () () T".to_string());
    assert!(matches!(r, Err(EventParseError::UnrecognizedDateShape)));
}

#[test]
fn build_event_date_parse_failure() {
    let r = EventModel::from_line("- [ ] (31 Foo) () () T".to_string());
    assert!(matches!(r, Err(EventParseError::DateParseFailure(_))));
    let r = EventModel::from_line("- [ ] (31 Feb 2023) () () T".to_string());
    assert!(matches!(r, Err(EventParseError::DateParseFailure(_))));
}

#[test]
fn build_event_bad_time_shape() {
    let r = EventModel::from_line("- [ ] (1 Nov) (25:00) () T".to_string());
    assert!(matches!(r, Err(EventParseError::UnrecognizedTimeShape)));
}

#[test]
fn build_event_time_parse_failure() {
    let r = EventModel::from_line("- [ ] (1 Nov) (13:00 PM) () T".to_string());
    assert!(matches!(r, Err(EventParseError::TimeParseFailure(_))));
}

#[test]
fn base_parse_date_exact_value() {
    let date = EventModel::base_parse_date("3 Nov 2023").unwrap();
    assert_eq!(date, d(2023, 11, 3));
}

#[test]
fn base_parse_time_exact_value() {
    let time = EventModel::base_parse_time("6:00 PM").unwrap();
    assert_eq!(time, t(18, 0));
}

#[test]
fn format_date_rendering() {
    assert_eq!(format_date(&d(2023, 11, 3)), "03 Nov 2023");
    assert_eq!(format_date(&d(24, 2, 25)), "25 Feb 0024");
}

#[test]
fn format_time_rendering() {
    assert_eq!(format_time(&t(18, 0)), "06:00 pm");
    assert_eq!(format_time(&t(0, 5)), "12:05 am");
    assert_eq!(format_time(&t(12, 0)), "12:00 pm");
}

#[test]
fn round_trip_serialized_date() {
    let dates = vec![d(2023, 11, 3), d(2024, 2, 29), d(24, 2, 25), d(2026, 12, 31)];
    for date in dates {
        let rendered = format_date(&date);
        let back = EventModel::base_parse_date(&rendered).unwrap();
        assert_eq!(back, date);
    }
}

#[test]
fn round_trip_serialized_time() {
    let times = vec![t(18, 0), t(0, 0), t(12, 0), t(6, 30), t(23, 59)];
    for time in times {
        let rendered = format_time(&time);
        let back = EventModel::base_parse_time(&rendered).unwrap();
        assert_eq!(back, time);
    }
}

#[test]
fn round_trip_built_event() {
    let ev = EventModel::from_line_with_year(
        "- [ ] (21 Nov) (5:30PM-10PM) (713 Music Hall, Houston) Pierce the Veil & Dayseeker",
        2023,
    )
    .unwrap();
    let back_start = EventModel::base_parse_date(&format_date(&ev.start_date)).unwrap();
    let back_end = EventModel::base_parse_date(&format_date(&ev.end_date)).unwrap();
    assert_eq!(back_start, ev.start_date);
    assert_eq!(back_end, ev.end_date);
    let back_st = EventModel::base_parse_time(&format_time(&ev.start_time.unwrap())).unwrap();
    let back_et = EventModel::base_parse_time(&format_time(&ev.end_time.unwrap())).unwrap();
    assert_eq!(Some(back_st), ev.start_time);
    assert_eq!(Some(back_et), ev.end_time);
}

#[test]
fn file_tag_detection() {
    let tagged = "# My shows\nTags: #event\n- [ ] (2 Nov) () (Houston) Polyphia\n";
    assert!(file_is_event(tagged));
    let untagged = "# My shows\nTags: #notes\n- [ ] (2 Nov) () (Houston) Polyphia\n";
    assert!(!file_is_event(untagged));
    assert!(!file_is_event(""));
    assert!(file_is_event("Tags: #event"));
}

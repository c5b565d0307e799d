use todoist_productivity_tracker::calendar::{Date, TimeOfDay, MAX_DAY_NUMBER, MIN_DAY_NUMBER};
use todoist_productivity_tracker::due::{has_char, parse_due, parse_due_date_time, DueValue};
use todoist_productivity_tracker::error::EngineError;

fn date(text: &str) -> Date {
    Date::parse(text).unwrap()
}

fn time(hour: u32, minute: u32, second: u32) -> TimeOfDay {
    TimeOfDay::new(hour * 3600 + minute * 60 + second, 0).unwrap()
}

fn due(text: &str) -> DueValue {
    parse_due(&text.to_string()).unwrap()
}

#[test]
fn has_char_finds_a_character_anywhere() {
    assert!(has_char("2024-01-15T09:30:00", 'T'));
    assert!(!has_char("2024-01-15", 'T'));
    assert!(has_char("T", 'T'));
    assert!(has_char("abcT", 'T'));
    assert!(!has_char("", 'T'));
    assert!(!has_char("t", 'T'));
    assert!(has_char("2024-01-15T09:30:00Z", 'Z'));
    assert!(has_char("\u{e9}t\u{e9}Z", 'Z'));
}

#[test]
fn due_is_read_as_a_day_or_a_day_with_a_time() {
    assert_eq!(due("2024-01-15"), DueValue::DateOnly(date("2024-01-15")));
    assert_eq!(
        due("2024-01-15T09:30:00"),
        DueValue::DateTime { date: date("2024-01-15"), time: time(9, 30, 0), zoned: false }
    );
    assert_eq!(
        due("2024-01-15T09:30:00Z"),
        DueValue::DateTime { date: date("2024-01-15"), time: time(9, 30, 0), zoned: true }
    );
}

#[test]
fn due_that_says_nothing_is_malformed() {
    for text in ["", "soon", "2024-13-01", "2024-01-15T", "2024-01-15T09:30", "T", "Z", "2024-01-15Z"] {
        assert_eq!(parse_due(&text.to_string()), Err(EngineError::MalformedDate), "{}", text);
    }
    assert_eq!(parse_due(&"2024-01-15T09:30:00+01:00".to_string()), Err(EngineError::MalformedDate));
}

#[test]
fn due_date_time_is_read_with_or_without_zone_letter() {
    assert_eq!(
        parse_due_date_time(&"2024-01-15T09:30:00".to_string()),
        Ok((date("2024-01-15"), time(9, 30, 0)))
    );
    assert_eq!(
        parse_due_date_time(&"2024-01-15T23:59:59Z".to_string()),
        Ok((date("2024-01-15"), time(23, 59, 59)))
    );
    assert_eq!(parse_due_date_time(&"2024-01-15".to_string()), Err(EngineError::MalformedDate));
    assert_eq!(parse_due_date_time(&"2024-01-15 09:30:00".to_string()), Err(EngineError::MalformedDate));
}

#[test]
fn due_text_has_the_form_of_what_was_read_without_zone() {
    assert_eq!(due("2024-01-15").to_text(), "2024-01-15");
    assert_eq!(due("2024-01-15T09:30:00").to_text(), "2024-01-15T09:30:00");
    assert_eq!(due("2024-01-15T09:30:00Z").to_text(), "2024-01-15T09:30:00");
}

#[test]
fn due_shift_moves_the_day_and_keeps_the_time() {
    assert_eq!(due("2024-01-31").checked_add_days(1), Some(due("2024-02-01")));
    assert_eq!(due("2024-02-28T17:45:10").checked_add_days(2), Some(due("2024-03-01T17:45:10")));
    assert_eq!(due("2023-12-31T00:00:00Z").checked_add_days(1), Some(due("2024-01-01T00:00:00Z")));
    assert_eq!(due("2024-03-01T23:59:59").checked_sub_days(1), Some(due("2024-02-29T23:59:59")));
    let moved = due("2024-02-28T17:45:10").checked_add_days(400).unwrap();
    match moved {
        DueValue::DateTime { time: t, zoned, .. } => {
            assert_eq!(t, time(17, 45, 10));
            assert!(!zoned);
        }
        DueValue::DateOnly(_) => panic!("the time was lost"),
    }
}

#[test]
fn due_shift_there_and_back_returns_the_due_date() {
    for text in ["2024-01-15", "2024-02-29", "2024-12-31T23:59:59", "2024-01-01T00:00:00Z"] {
        for count in [0u64, 1, 2, 7, 30, 365, 1461, 40_000] {
            let start = due(text);
            let later = start.checked_add_days(count).unwrap();
            assert_eq!(later.checked_sub_days(count), Some(start));
            assert_eq!(later.date().day_number() as i64, start.date().day_number() as i64 + count as i64);
        }
    }
}

#[test]
fn due_shift_beyond_the_calendar_is_none() {
    let last = DueValue::DateOnly(Date::from_day_number(MAX_DAY_NUMBER).unwrap());
    assert_eq!(last.checked_add_days(1), None);
    assert_eq!(last.checked_add_days(0), Some(last));
    let first = DueValue::DateTime {
        date: Date::from_day_number(MIN_DAY_NUMBER).unwrap(),
        time: time(1, 2, 3),
        zoned: false,
    };
    assert_eq!(first.checked_sub_days(1), None);
    assert_eq!(first.checked_sub_days(0), Some(first));
    assert_eq!(due("2024-01-15").checked_add_days(u64::MAX), None);
}

#[test]
fn due_on_another_day_keeps_the_time() {
    let today = date("2024-05-06");
    assert_eq!(due("2024-01-15").on_day(&today), due("2024-05-06"));
    assert_eq!(due("2024-01-15T09:30:00").on_day(&today), due("2024-05-06T09:30:00"));
    assert_eq!(due("2024-01-15T09:30:00Z").on_day(&today), due("2024-05-06T09:30:00Z"));
    assert_eq!(due("2024-01-15T09:30:00Z").date(), date("2024-01-15"));
}

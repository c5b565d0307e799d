use todoist_productivity_tracker::calendar::{Date, MAX_DAY_NUMBER};
use todoist_productivity_tracker::error::EngineError;
use todoist_productivity_tracker::filter_tasks::{copy_optional_text, Due, Task};
use todoist_productivity_tracker::reschedule::{
    overdue, postpone_task_by_days, postpone_task_to_tomorrow, pull_task_to_today,
};
use todoist_productivity_tracker::update_task::{
    due_update_for, update_task_due, DueUpdate, TaskUpdateRequest,
};

fn task(id: &str, date: &str, string: Option<&str>, lang: Option<&str>) -> Task {
    Task {
        id: id.to_string(),
        due: Due {
            date: date.to_string(),
            string: string.map(|s| s.to_string()),
            lang: lang.map(|s| s.to_string()),
        },
        content: format!("content of {}", id),
        priority: 1,
        duration: None,
    }
}

fn update(id: &str, date: &str, string: Option<&str>, lang: Option<&str>) -> DueUpdate {
    DueUpdate {
        task_id: id.to_string(),
        due_date: date.to_string(),
        due_lang: lang.map(|s| s.to_string()),
        due_string: string.map(|s| s.to_string()),
    }
}

#[test]
fn postponing_a_day_adds_days_and_writes_a_day() {
    let t = task("a1", "2024-01-31", None, None);
    assert_eq!(postpone_task_by_days(&t, 1), Ok(update("a1", "2024-02-01", None, None)));
    assert_eq!(postpone_task_by_days(&t, 30), Ok(update("a1", "2024-03-01", None, None)));
    assert_eq!(postpone_task_by_days(&t, 0), Ok(update("a1", "2024-01-31", None, None)));
    assert_eq!(postpone_task_by_days(&t, 127), Ok(update("a1", "2024-06-06", None, None)));
}

#[test]
fn postponing_a_day_with_a_time_keeps_the_time() {
    let t = task("a2", "2024-02-28T17:45:10", None, None);
    assert_eq!(postpone_task_by_days(&t, 2), Ok(update("a2", "2024-03-01T17:45:10", None, None)));
    let zoned = task("a3", "2024-12-31T23:59:59Z", None, None);
    assert_eq!(postpone_task_by_days(&zoned, 1), Ok(update("a3", "2025-01-01T23:59:59", None, None)));
}

#[test]
fn postponing_carries_language_and_display_text_along() {
    let t = task("a4", "2024-01-15", Some("every monday"), Some("en"));
    assert_eq!(
        postpone_task_to_tomorrow(&t),
        Ok(update("a4", "2024-01-16", Some("every monday"), Some("en")))
    );
    let only_string = task("a5", "2024-01-15T08:00:00", Some("jeden Tag 8 Uhr"), None);
    assert_eq!(
        postpone_task_to_tomorrow(&only_string),
        Ok(update("a5", "2024-01-16T08:00:00", Some("jeden Tag 8 Uhr"), None))
    );
    let only_lang = task("a6", "2024-01-15", None, Some("de"));
    assert_eq!(postpone_task_to_tomorrow(&only_lang), Ok(update("a6", "2024-01-16", None, Some("de"))));
}

#[test]
fn postponing_by_fewer_than_no_days_is_out_of_range() {
    let t = task("a7", "2024-01-15", None, None);
    assert_eq!(postpone_task_by_days(&t, -1), Err(EngineError::DateOutOfRange));
    assert_eq!(postpone_task_by_days(&t, i8::MIN), Err(EngineError::DateOutOfRange));
}

#[test]
fn postponing_beyond_the_calendar_is_out_of_range() {
    let last = Date::from_day_number(MAX_DAY_NUMBER).unwrap().to_text();
    let t = task("a8", &last, None, None);
    assert_eq!(postpone_task_by_days(&t, 1), Err(EngineError::DateOutOfRange));
    assert_eq!(postpone_task_by_days(&t, 0), Ok(update("a8", &last, None, None)));
}

#[test]
fn postponing_a_task_without_a_due_date_is_malformed() {
    assert_eq!(
        postpone_task_by_days(&task("a9", "next week", None, None), 1),
        Err(EngineError::MalformedDate)
    );
    assert_eq!(
        postpone_task_by_days(&task("a9", "2024-01-15T9h", None, None), 1),
        Err(EngineError::MalformedDate)
    );
    assert_eq!(
        postpone_task_by_days(&task("a9", "next week", None, None), -1),
        Err(EngineError::MalformedDate)
    );
}

#[test]
fn pulling_to_today_replaces_the_day_and_keeps_the_time() {
    let today = Date::parse("2024-05-06").unwrap();
    assert_eq!(
        pull_task_to_today(&task("b1", "2024-01-15", None, None), &today),
        Ok(update("b1", "2024-05-06", None, None))
    );
    assert_eq!(
        pull_task_to_today(&task("b2", "2024-01-15T09:30:00", Some("daily 9:30"), Some("en")), &today),
        Ok(update("b2", "2024-05-06T09:30:00", Some("daily 9:30"), Some("en")))
    );
    assert_eq!(
        pull_task_to_today(&task("b3", "2023-11-30T23:59:59Z", None, None), &today),
        Ok(update("b3", "2024-05-06T23:59:59", None, None))
    );
}

#[test]
fn pulling_to_today_counts_no_days() {
    let today = Date::parse("2024-05-06").unwrap();
    for old in ["2024-05-05", "2024-05-06", "2020-02-29", "2024-05-07"] {
        assert_eq!(
            pull_task_to_today(&task("b4", old, None, None), &today),
            Ok(update("b4", "2024-05-06", None, None))
        );
    }
}

#[test]
fn pulling_a_day_without_time_does_not_read_it() {
    let today = Date::parse("2024-05-06").unwrap();
    assert_eq!(
        pull_task_to_today(&task("b5", "whenever", None, None), &today),
        Ok(update("b5", "2024-05-06", None, None))
    );
}

#[test]
fn pulling_a_malformed_time_is_an_error() {
    let today = Date::parse("2024-05-06").unwrap();
    assert_eq!(
        pull_task_to_today(&task("b6", "2024-01-15T09:30", None, None), &today),
        Err(EngineError::MalformedDate)
    );
    assert_eq!(
        pull_task_to_today(&task("b6", "Tuesday", None, None), &today),
        Err(EngineError::MalformedDate)
    );
}

#[test]
fn overdue_gives_one_outcome_per_task_in_order() {
    let today = Date::parse("2024-05-06").unwrap();
    let tasks = vec![
        task("c1", "2024-05-01", None, None),
        task("c2", "2024-05-02T07:00:00", Some("every day at 7"), Some("en")),
        task("c3", "2024-05-02T07", None, None),
        task("c4", "2024-04-30T18:15:00Z", None, None),
    ];
    assert_eq!(
        overdue(&tasks, &today),
        vec![
            Ok(update("c1", "2024-05-06", None, None)),
            Ok(update("c2", "2024-05-06T07:00:00", Some("every day at 7"), Some("en"))),
            Err(EngineError::MalformedDate),
            Ok(update("c4", "2024-05-06T18:15:00", None, None)),
        ]
    );
    assert_eq!(overdue(&vec![], &today), vec![]);
}

#[test]
fn due_update_names_the_task_and_copies_its_texts() {
    let t = task("d1", "2024-01-15", Some("tomorrow"), Some("en"));
    assert_eq!(
        due_update_for(&t, "2024-01-16".to_string()),
        update("d1", "2024-01-16", Some("tomorrow"), Some("en"))
    );
    assert_eq!(copy_optional_text(&Some("x".to_string())), Some("x".to_string()));
    assert_eq!(copy_optional_text(&None), None);
}

#[test]
fn update_request_sends_the_fields_that_are_there() {
    let all = update_task_due(
        "123",
        "2024-01-16".to_string(),
        Some("en".to_string()),
        Some("tomorrow".to_string()),
    );
    assert_eq!(
        all,
        TaskUpdateRequest {
            path: "tasks/123".to_string(),
            fields: vec![
                ("due_date".to_string(), "2024-01-16".to_string()),
                ("due_lang".to_string(), "en".to_string()),
                ("due_string".to_string(), "tomorrow".to_string()),
            ],
        }
    );
    let bare = update_task_due("9", "2024-01-16T10:00:00".to_string(), None, None);
    assert_eq!(bare.path, "tasks/9");
    assert_eq!(bare.fields, vec![("due_date".to_string(), "2024-01-16T10:00:00".to_string())]);
    let with_string = update_task_due("9", "2024-01-16".to_string(), None, Some("mañana".to_string()));
    assert_eq!(
        with_string.fields,
        vec![
            ("due_date".to_string(), "2024-01-16".to_string()),
            ("due_string".to_string(), "mañana".to_string()),
        ]
    );
    let with_lang = update_task_due("9", "2024-01-16".to_string(), Some("es".to_string()), None);
    assert_eq!(
        with_lang.fields,
        vec![
            ("due_date".to_string(), "2024-01-16".to_string()),
            ("due_lang".to_string(), "es".to_string()),
        ]
    );
}

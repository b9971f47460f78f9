use freelist::row::{decode_first, decode_rows, rows_from_columns, Columns, TaskRow};
use freelist::task_list::select_overdue;
use freelist::{Task, Timestamp};

fn at(secs: i64, nanos: u32) -> Timestamp {
    Timestamp::new(secs, nanos).unwrap()
}

fn row(id: i64, title: &str) -> TaskRow {
    TaskRow {
        id,
        title: title.to_string(),
        details: None,
        done: 0,
        due_date: None,
        is_recurring: 0,
        estimated_duration: None,
        last_duration: None,
        tag: None,
        parent_id: None,
        created_at: "2015-05-15T00:00:00+00:00".to_string(),
        updated_at: "2015-05-15T00:00:01+00:00".to_string(),
    }
}

#[test]
fn a_row_is_read_column_by_column() {
    let full = TaskRow {
        id: 7,
        title: "Write report".to_string(),
        details: Some("Quarterly numbers".to_string()),
        done: 1,
        due_date: Some("1996-12-19T16:39:57-08:00".to_string()),
        is_recurring: 1,
        estimated_duration: Some(90),
        last_duration: Some(75),
        tag: Some("work".to_string()),
        parent_id: Some(41),
        created_at: "2015-05-15T00:00:00+00:00".to_string(),
        updated_at: "2015-05-15T00:00:00.500+00:00".to_string(),
    };
    let task = full.decode(at(1, 1));
    assert_eq!(task.id, Some(7));
    assert_eq!(task.title, "Write report");
    assert_eq!(task.details, Some("Quarterly numbers".to_string()));
    assert!(task.done);
    assert_eq!(task.due_date, Some(at(851_042_397, 0)));
    assert!(task.is_recurring);
    assert_eq!(task.estimated_duration, Some(90));
    assert_eq!(task.last_duration, Some(75));
    assert_eq!(task.tag, Some("work".to_string()));
    assert_eq!(task.parent_id, Some(41));
    assert_eq!(task.created_at, at(1_431_648_000, 0));
    assert_eq!(task.updated_at, at(1_431_648_000, 500_000_000));
}

#[test]
fn a_bare_row_is_a_bare_task() {
    let task = row(1, "Bare").decode(at(1, 1));
    assert_eq!(task.id, Some(1));
    assert_eq!(task.title, "Bare");
    assert_eq!(task.details, None);
    assert!(!task.done);
    assert_eq!(task.due_date, None);
    assert!(!task.is_recurring);
    assert_eq!(task.estimated_duration, None);
    assert_eq!(task.last_duration, None);
    assert_eq!(task.tag, None);
    assert_eq!(task.parent_id, None);
    assert_eq!(task.created_at, at(1_431_648_000, 0));
    assert_eq!(task.updated_at, at(1_431_648_001, 0));
}

#[test]
fn only_one_sets_a_flag() {
    for (stored, set) in [(0, false), (1, true), (2, false), (-1, false), (i32::MAX, false)] {
        let mut r = row(1, "flag");
        r.done = stored;
        r.is_recurring = stored;
        let task = r.decode(at(0, 0));
        assert_eq!(task.done, set);
        assert_eq!(task.is_recurring, set);
    }
}

#[test]
fn a_creation_or_update_time_that_cannot_be_read_is_replaced_by_the_fallback() {
    let fallback = at(1_700_000_000, 42);

    let mut r = row(1, "broken creation");
    r.created_at = "not a time".to_string();
    let task = r.decode(fallback);
    assert_eq!(task.created_at, fallback);
    assert_eq!(task.updated_at, at(1_431_648_001, 0));

    let mut r = row(1, "broken update");
    r.updated_at = "".to_string();
    let task = r.decode(fallback);
    assert_eq!(task.created_at, at(1_431_648_000, 0));
    assert_eq!(task.updated_at, fallback);

    let mut r = row(1, "both broken");
    r.created_at = "2015-05-15".to_string();
    r.updated_at = "2015-05-15 00:00:00".to_string();
    let task = r.decode(fallback);
    assert_eq!(task.created_at, fallback);
    assert_eq!(task.updated_at, fallback);
}

#[test]
fn a_due_date_that_cannot_be_read_is_replaced_by_the_fallback() {
    let mut r = row(1, "broken due date");
    r.due_date = Some("next week".to_string());
    assert_eq!(r.decode(at(9, 9)).due_date, Some(at(9, 9)));

    let mut r = row(1, "empty due date");
    r.due_date = Some("".to_string());
    assert_eq!(r.decode(at(9, 9)).due_date, Some(at(9, 9)));

    let mut r = row(1, "due past the year 9999");
    r.due_date = Some("+10000-01-01T00:00:00+00:00".to_string());
    assert_eq!(r.decode(at(-7, 1)).due_date, Some(at(-7, 1)));
}

#[test]
fn a_due_date_that_is_absent_stays_absent_and_one_that_can_be_read_is_kept() {
    assert_eq!(row(1, "no due date").decode(at(9, 9)).due_date, None);

    let mut r = row(1, "due");
    r.due_date = Some("2015-05-15T00:00:00+00:00".to_string());
    assert_eq!(r.decode(at(9, 9)).due_date, Some(at(1_431_648_000, 0)));
}

#[test]
fn rows_are_read_in_their_order() {
    let mut broken = row(2, "second");
    broken.created_at = "?".to_string();
    let rows = vec![row(3, "first"), broken, row(1, "third")];
    let tasks = decode_rows(rows, at(77, 0));
    let seen: Vec<(Option<i64>, String)> =
        tasks.iter().map(|task| (task.id, task.title.clone())).collect();
    assert_eq!(
        seen,
        vec![
            (Some(3), "first".to_string()),
            (Some(2), "second".to_string()),
            (Some(1), "third".to_string()),
        ]
    );
    assert_eq!(tasks[1].created_at, at(77, 0));
    assert_eq!(tasks[0].created_at, at(1_431_648_000, 0));
    assert!(decode_rows(vec![], at(0, 0)).is_empty());
}

#[test]
fn the_first_row_is_the_task_that_was_asked_for() {
    assert!(decode_first(vec![], at(0, 0)).is_none());
    let task = decode_first(vec![row(5, "only")], at(0, 0)).unwrap();
    assert_eq!(task.id, Some(5));
    assert_eq!(task.title, "only");
    let task = decode_first(vec![row(5, "first"), row(6, "second"), row(7, "third")], at(0, 0))
        .unwrap();
    assert_eq!(task.id, Some(5));
    assert_eq!(task.title, "first");
}

#[test]
fn the_overdue_tasks_are_kept_in_their_order() {
    let now = at(10_000, 0);
    let mut done = Task::new("done and late").with_due_date(at(1, 0));
    done.mark_done();
    let tasks = vec![
        Task::new("late").with_due_date(at(9_999, 999_999_999)),
        Task::new("no due date"),
        done,
        Task::new("due right now").with_due_date(now),
        Task::new("due later").with_due_date(at(10_000, 1)),
        Task::new("long late").with_due_date(at(-5, 0)),
    ];
    let overdue = select_overdue(tasks, &now);
    let titles: Vec<&str> = overdue.iter().map(|task| task.title.as_str()).collect();
    assert_eq!(titles, vec!["late", "long late"]);
    assert!(select_overdue(vec![], &now).is_empty());
    assert!(select_overdue(vec![Task::new("x")], &now).is_empty());
}

fn columns(id: i64, title: &str) -> Columns {
    (
        id,
        title.to_string(),
        Some("details".to_string()),
        1,
        Some("due".to_string()),
        0,
        Some(10),
        Some(20),
        Some("tag".to_string()),
        Some(30),
        "created".to_string(),
        "updated".to_string(),
    )
}

#[test]
fn each_column_goes_to_the_field_of_its_place() {
    let row = TaskRow::from_columns(columns(7, "placed"));
    assert_eq!(
        row,
        TaskRow {
            id: 7,
            title: "placed".to_string(),
            details: Some("details".to_string()),
            done: 1,
            due_date: Some("due".to_string()),
            is_recurring: 0,
            estimated_duration: Some(10),
            last_duration: Some(20),
            tag: Some("tag".to_string()),
            parent_id: Some(30),
            created_at: "created".to_string(),
            updated_at: "updated".to_string(),
        }
    );
}

#[test]
fn rows_are_made_of_their_columns_in_order() {
    let rows = rows_from_columns(vec![columns(2, "b"), columns(1, "a"), columns(3, "c")]);
    let seen: Vec<(i64, &str)> = rows.iter().map(|row| (row.id, row.title.as_str())).collect();
    assert_eq!(seen, vec![(2, "b"), (1, "a"), (3, "c")]);
    assert!(rows_from_columns(vec![]).is_empty());
}

use freelist::statement::{join, SqlStatement, SqlValue};
use freelist::{Task, TaskFilter, TaskStatus, Timestamp};

const COLUMNS: &str = "id, title, details, done, due_date, is_recurring, estimated_duration, last_duration, tag, parent_id, created_at, updated_at";

fn at(secs: i64, nanos: u32) -> Timestamp {
    Timestamp::new(secs, nanos).unwrap()
}

fn text(s: &str) -> SqlValue {
    SqlValue::Text(s.to_string())
}

#[test]
fn joining_puts_the_separator_between_the_parts() {
    assert_eq!(join(&vec![], ", "), "");
    assert_eq!(join(&vec!["a"], ", "), "a");
    assert_eq!(join(&vec!["a", "b"], ", "), "a, b");
    assert_eq!(join(&vec!["a", "b", "c"], " AND "), "a AND b AND c");
    assert_eq!(join(&vec!["", ""], "-"), "-");
    assert_eq!(join(&vec!["a", "b"], ""), "ab");
}

#[test]
fn values_for_flags_and_absent_fields() {
    assert_eq!(SqlValue::flag(true), SqlValue::Integer(1));
    assert_eq!(SqlValue::flag(false), SqlValue::Integer(0));
    assert_eq!(SqlValue::optional_text(&None), SqlValue::Null);
    assert_eq!(SqlValue::optional_text(&Some("".to_string())), text(""));
    assert_eq!(SqlValue::optional_text(&Some("x".to_string())), text("x"));
    assert_eq!(SqlValue::optional_minutes(None), SqlValue::Null);
    assert_eq!(SqlValue::optional_minutes(Some(-7)), SqlValue::Integer(-7));
    assert_eq!(SqlValue::optional_minutes(Some(i32::MIN)), SqlValue::Integer(-2_147_483_648));
    assert_eq!(SqlValue::optional_id(None), SqlValue::Null);
    assert_eq!(SqlValue::optional_id(Some(i64::MAX)), SqlValue::Integer(i64::MAX));
}

#[test]
fn a_plain_statement_has_no_parameters() {
    let statement = SqlStatement::plain("VACUUM");
    assert_eq!(statement.text, "VACUUM");
    assert!(statement.params.is_empty());
}

#[test]
fn the_schema_is_one_table_and_two_indexes() {
    let schema = SqlStatement::schema();
    assert_eq!(schema.len(), 3);
    assert_eq!(
        schema[0].text,
        "CREATE TABLE IF NOT EXISTS tasks (id INTEGER PRIMARY KEY AUTOINCREMENT, title TEXT NOT NULL, details TEXT, done INTEGER NOT NULL DEFAULT 0, due_date TEXT, is_recurring INTEGER NOT NULL DEFAULT 0, estimated_duration INTEGER, last_duration INTEGER, tag TEXT, parent_id INTEGER, created_at TEXT NOT NULL, updated_at TEXT NOT NULL, FOREIGN KEY(parent_id) REFERENCES tasks(id))"
    );
    assert_eq!(schema[1].text, "CREATE INDEX IF NOT EXISTS idx_tasks_done ON tasks(done)");
    assert_eq!(schema[2].text, "CREATE INDEX IF NOT EXISTS idx_tasks_tag ON tasks(tag)");
    assert!(schema.iter().all(|statement| statement.params.is_empty()));
}

#[test]
fn an_insertion_binds_every_column_but_the_id() {
    let mut task = Task::new_at("Write report", at(1_000, 0))
        .with_details("Quarterly numbers")
        .with_tag("work")
        .with_due_date(at(1_431_648_000, 0))
        .with_parent(41);
    task.is_recurring = true;
    task.set_estimated_duration(90);
    task.record_duration(75);
    task.mark_done();

    let statement = SqlStatement::insert(&task, &at(1_483_228_800, 500_000_000));
    assert_eq!(
        statement.text,
        "INSERT INTO tasks (title, details, done, due_date, is_recurring, estimated_duration, last_duration, tag, parent_id, created_at, updated_at) VALUES (?1, ?2, ?3, ?4, ?5, ?6, ?7, ?8, ?9, ?10, ?11)"
    );
    assert_eq!(
        statement.params,
        vec![
            text("Write report"),
            text("Quarterly numbers"),
            SqlValue::Integer(1),
            text("2015-05-15T00:00:00+00:00"),
            SqlValue::Integer(1),
            SqlValue::Integer(90),
            SqlValue::Integer(75),
            text("work"),
            SqlValue::Integer(41),
            text("2017-01-01T00:00:00.500+00:00"),
            text("2017-01-01T00:00:00.500+00:00"),
        ]
    );
}

#[test]
fn an_insertion_binds_null_for_what_is_absent_and_its_own_stamp_for_the_times() {
    let task = Task::new_at("Bare", at(1_000, 0));
    let statement = SqlStatement::insert(&task, &at(0, 0));
    assert_eq!(
        statement.params,
        vec![
            text("Bare"),
            SqlValue::Null,
            SqlValue::Integer(0),
            SqlValue::Null,
            SqlValue::Integer(0),
            SqlValue::Null,
            SqlValue::Null,
            SqlValue::Null,
            SqlValue::Null,
            text("1970-01-01T00:00:00+00:00"),
            text("1970-01-01T00:00:00+00:00"),
        ]
    );
}

#[test]
fn a_filter_without_fields_has_no_where_clause() {
    let statement = SqlStatement::fetch(&TaskFilter::default());
    assert_eq!(
        statement.text,
        format!("SELECT {} FROM tasks ORDER BY created_at DESC", COLUMNS)
    );
    assert!(statement.params.is_empty());
}

#[test]
fn each_field_of_a_filter_is_one_condition() {
    let todo = SqlStatement::fetch(&TaskFilter {
        status: Some(TaskStatus::Todo),
        tag: None,
        parent_id: None,
    });
    assert_eq!(
        todo.text,
        format!("SELECT {} FROM tasks WHERE done = 0 ORDER BY created_at DESC", COLUMNS)
    );
    assert!(todo.params.is_empty());

    let done = SqlStatement::fetch(&TaskFilter {
        status: Some(TaskStatus::Done),
        tag: None,
        parent_id: None,
    });
    assert_eq!(
        done.text,
        format!("SELECT {} FROM tasks WHERE done = 1 ORDER BY created_at DESC", COLUMNS)
    );
    assert!(done.params.is_empty());

    let tagged = SqlStatement::fetch(&TaskFilter {
        status: None,
        tag: Some("Work".to_string()),
        parent_id: None,
    });
    assert_eq!(
        tagged.text,
        format!("SELECT {} FROM tasks WHERE tag = ? ORDER BY created_at DESC", COLUMNS)
    );
    assert_eq!(tagged.params, vec![text("Work")]);

    let children = SqlStatement::fetch(&TaskFilter {
        status: None,
        tag: None,
        parent_id: Some(9),
    });
    assert_eq!(
        children.text,
        format!("SELECT {} FROM tasks WHERE parent_id = ? ORDER BY created_at DESC", COLUMNS)
    );
    assert_eq!(children.params, vec![SqlValue::Integer(9)]);
}

#[test]
fn the_conditions_of_a_filter_are_joined_by_and() {
    let statement = SqlStatement::fetch(&TaskFilter {
        status: Some(TaskStatus::Done),
        tag: Some("".to_string()),
        parent_id: Some(-2),
    });
    assert_eq!(
        statement.text,
        format!(
            "SELECT {} FROM tasks WHERE done = 1 AND tag = ? AND parent_id = ? ORDER BY created_at DESC",
            COLUMNS
        )
    );
    assert_eq!(statement.params, vec![text(""), SqlValue::Integer(-2)]);

    let statement = SqlStatement::fetch(&TaskFilter {
        status: Some(TaskStatus::Todo),
        tag: None,
        parent_id: Some(4),
    });
    assert_eq!(
        statement.text,
        format!(
            "SELECT {} FROM tasks WHERE done = 0 AND parent_id = ? ORDER BY created_at DESC",
            COLUMNS
        )
    );
    assert_eq!(statement.params, vec![SqlValue::Integer(4)]);
}

#[test]
fn the_other_statements() {
    let by_id = SqlStatement::fetch_by_id(17);
    assert_eq!(by_id.text, format!("SELECT {} FROM tasks WHERE id = ?1", COLUMNS));
    assert_eq!(by_id.params, vec![SqlValue::Integer(17)]);

    let tags = SqlStatement::fetch_tags();
    assert_eq!(
        tags.text,
        "SELECT DISTINCT tag FROM tasks WHERE tag IS NOT NULL AND tag != '' ORDER BY tag"
    );
    assert!(tags.params.is_empty());

    let update = SqlStatement::update_status(3, true, &at(1_431_648_000, 0));
    assert_eq!(update.text, "UPDATE tasks SET done = ?1, updated_at = ?2 WHERE id = ?3");
    assert_eq!(
        update.params,
        vec![SqlValue::Integer(1), text("2015-05-15T00:00:00+00:00"), SqlValue::Integer(3)]
    );
    let update = SqlStatement::update_status(-3, false, &at(0, 0));
    assert_eq!(
        update.params,
        vec![SqlValue::Integer(0), text("1970-01-01T00:00:00+00:00"), SqlValue::Integer(-3)]
    );

    let subtasks = SqlStatement::delete_subtasks(5);
    assert_eq!(subtasks.text, "DELETE FROM tasks WHERE parent_id = ?1");
    assert_eq!(subtasks.params, vec![SqlValue::Integer(5)]);

    let one = SqlStatement::delete_task(5);
    assert_eq!(one.text, "DELETE FROM tasks WHERE id = ?1");
    assert_eq!(one.params, vec![SqlValue::Integer(5)]);

    let all = SqlStatement::delete_all();
    assert_eq!(all.text, "DELETE FROM tasks");
    assert!(all.params.is_empty());
}

#[test]
fn every_statement_binds_as_many_values_as_its_text_has_parameters() {
    let mut task = Task::new("t").with_tag("a?b").with_details("why?");
    task.set_estimated_duration(1);
    let mut statements = SqlStatement::schema();
    statements.push(SqlStatement::insert(&task, &at(0, 0)));
    statements.push(SqlStatement::insert(&Task::new("?"), &at(5, 5)));
    for status in [None, Some(TaskStatus::Done), Some(TaskStatus::Todo)] {
        for tag in [None, Some("x?".to_string())] {
            for parent_id in [None, Some(3)] {
                statements.push(SqlStatement::fetch(&TaskFilter {
                    status,
                    tag: tag.clone(),
                    parent_id,
                }));
            }
        }
    }
    statements.push(SqlStatement::fetch_by_id(1));
    statements.push(SqlStatement::fetch_tags());
    statements.push(SqlStatement::update_status(1, true, &at(0, 0)));
    statements.push(SqlStatement::delete_subtasks(1));
    statements.push(SqlStatement::delete_task(1));
    statements.push(SqlStatement::delete_all());
    assert_eq!(statements.len(), 23);
    for statement in statements {
        assert_eq!(statement.text.matches('?').count(), statement.params.len());
    }
}

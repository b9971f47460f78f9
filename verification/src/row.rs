//! Rows of the `tasks` table as the store hands them back, and how they are
//! read as tasks.

use vstd::prelude::*;

use crate::statement::{stored_instant, SqlValueView};
use crate::task::{tasks_view, Task, TaskView};
use crate::time::{rfc3339_instant, Instant, Timestamp};

verus! {

/// One row of the `tasks` table, each column as the store holds it: flags as
/// integers, times as text.
#[derive(Clone, Debug, PartialEq, Eq)]
pub struct TaskRow {
    pub id: i64,
    pub title: String,
    pub details: Option<String>,
    pub done: i32,
    pub due_date: Option<String>,
    pub is_recurring: i32,
    pub estimated_duration: Option<i32>,
    pub last_duration: Option<i32>,
    pub tag: Option<String>,
    pub parent_id: Option<i64>,
    pub created_at: String,
    pub updated_at: String,
}

/// The columns of one row of the `tasks` table, in the order of the table.
pub type Columns = (
    i64,
    String,
    Option<String>,
    i32,
    Option<String>,
    i32,
    Option<i32>,
    Option<i32>,
    Option<String>,
    Option<i64>,
    String,
    String,
);

/// The mathematical value of a [`TaskRow`].
pub ghost struct TaskRowView {
    pub id: i64,
    pub title: Seq<char>,
    pub details: Option<Seq<char>>,
    pub done: i32,
    pub due_date: Option<Seq<char>>,
    pub is_recurring: i32,
    pub estimated_duration: Option<i32>,
    pub last_duration: Option<i32>,
    pub tag: Option<Seq<char>>,
    pub parent_id: Option<i64>,
    pub created_at: Seq<char>,
    pub updated_at: Seq<char>,
}

impl View for TaskRow {
    type V = TaskRowView;

    open spec fn view(&self) -> TaskRowView {
        TaskRowView {
            id: self.id,
            title: self.title@,
            details: crate::task::text_view(self.details),
            done: self.done,
            due_date: crate::task::text_view(self.due_date),
            is_recurring: self.is_recurring,
            estimated_duration: self.estimated_duration,
            last_duration: self.last_duration,
            tag: crate::task::text_view(self.tag),
            parent_id: self.parent_id,
            created_at: self.created_at@,
            updated_at: self.updated_at@,
        }
    }
}

/// The values of a list of rows.
pub open spec fn rows_view(rows: Seq<TaskRow>) -> Seq<TaskRowView> {
    Seq::new(rows.len(), |i: int| rows[i]@)
}

/// The instant that a stored time denotes, or `fallback` where its text is not
/// RFC 3339.
pub open spec fn instant_or(text: Seq<char>, fallback: Instant) -> Instant {
    match rfc3339_instant(text) {
        Some(at) => at,
        None => fallback,
    }
}

/// The integer that a flag is stored as.
pub open spec fn stored_flag(set: bool) -> i32 {
    if set {
        1
    } else {
        0
    }
}

impl TaskRowView {
    /// The row that stands for `task` under the id `id`, with the text `stamp`
    /// as its creation and update time.
    pub open spec fn of_task(id: i64, task: TaskView, stamp: Seq<char>) -> TaskRowView {
        TaskRowView {
            id,
            title: task.title,
            details: task.details,
            done: stored_flag(task.done),
            due_date: stored_instant(task.due_date),
            is_recurring: stored_flag(task.is_recurring),
            estimated_duration: task.estimated_duration,
            last_duration: task.last_duration,
            tag: task.tag,
            parent_id: task.parent_id,
            created_at: stamp,
            updated_at: stamp,
        }
    }

    /// The columns of the row but the id, in their order, as parameter values.
    pub open spec fn values(self) -> Seq<SqlValueView> {
        seq![
            SqlValueView::Text(self.title),
            SqlValueView::optional_text(self.details),
            SqlValueView::Integer(self.done as int),
            SqlValueView::optional_text(self.due_date),
            SqlValueView::Integer(self.is_recurring as int),
            SqlValueView::optional_minutes(self.estimated_duration),
            SqlValueView::optional_minutes(self.last_duration),
            SqlValueView::optional_text(self.tag),
            SqlValueView::optional_id(self.parent_id),
            SqlValueView::Text(self.created_at),
            SqlValueView::Text(self.updated_at),
        ]
    }

    /// The task that the row stands for. A flag is set where its column holds 1.
    /// A due date, creation time or update time whose text is not RFC 3339 is
    /// replaced by `fallback`; a due date that the row does not have stays absent.
    pub open spec fn decoded(self, fallback: Instant) -> TaskView {
        TaskView {
            id: Some(self.id),
            title: self.title,
            details: self.details,
            done: self.done == 1,
            due_date: match self.due_date {
                Some(text) => Some(instant_or(text, fallback)),
                None => None,
            },
            is_recurring: self.is_recurring == 1,
            estimated_duration: self.estimated_duration,
            last_duration: self.last_duration,
            tag: self.tag,
            parent_id: self.parent_id,
            created_at: instant_or(self.created_at, fallback),
            updated_at: instant_or(self.updated_at, fallback),
        }
    }
}

/// The tasks that the rows stand for, in the order of the rows.
pub open spec fn decoded_rows(rows: Seq<TaskRowView>, fallback: Instant) -> Seq<TaskView> {
    Seq::new(rows.len(), |i: int| rows[i].decoded(fallback))
}

/// The task that the first of the rows stands for; `None` where there is no row.
pub open spec fn decoded_first(rows: Seq<TaskRowView>, fallback: Instant) -> Option<TaskView> {
    if rows.len() == 0 {
        None
    } else {
        Some(rows[0].decoded(fallback))
    }
}

/// The row with these columns: each field holds the column of its place.
pub open spec fn row_of(columns: Columns) -> TaskRow {
    TaskRow {
        id: columns.0,
        title: columns.1,
        details: columns.2,
        done: columns.3,
        due_date: columns.4,
        is_recurring: columns.5,
        estimated_duration: columns.6,
        last_duration: columns.7,
        tag: columns.8,
        parent_id: columns.9,
        created_at: columns.10,
        updated_at: columns.11,
    }
}

/// The rows with these columns, in their order.
pub open spec fn rows_of(found: Seq<Columns>) -> Seq<TaskRow> {
    Seq::new(found.len(), |i: int| row_of(found[i]))
}

impl TaskRow {
    /// The row with these columns.
    pub fn from_columns(columns: Columns) -> (row: TaskRow)
        ensures
            row == row_of(columns),
    {
        let (
            id,
            title,
            details,
            done,
            due_date,
            is_recurring,
            estimated_duration,
            last_duration,
            tag,
            parent_id,
            created_at,
            updated_at,
        ) = columns;
        TaskRow {
            id,
            title,
            details,
            done,
            due_date,
            is_recurring,
            estimated_duration,
            last_duration,
            tag,
            parent_id,
            created_at,
            updated_at,
        }
    }

    /// Reads the row as the task that it stands for, with `fallback` in
    /// place of a due date, creation time or update time that cannot be read.
    pub fn decode(self, fallback: Timestamp) -> (task: Task)
        ensures
            task@ == self@.decoded(fallback@),
    {
        let due_date = match &self.due_date {
            Some(text) => match Timestamp::parse_rfc3339(text.as_str()) {
                Some(at) => Some(at),
                None => Some(fallback),
            },
            None => None,
        };
        let created_at = match Timestamp::parse_rfc3339(self.created_at.as_str()) {
            Some(at) => at,
            None => fallback,
        };
        let updated_at = match Timestamp::parse_rfc3339(self.updated_at.as_str()) {
            Some(at) => at,
            None => fallback,
        };
        Task {
            id: Some(self.id),
            title: self.title,
            details: self.details,
            done: self.done == 1,
            due_date,
            is_recurring: self.is_recurring == 1,
            estimated_duration: self.estimated_duration,
            last_duration: self.last_duration,
            tag: self.tag,
            parent_id: self.parent_id,
            created_at,
            updated_at,
        }
    }
}

/// The rows with these columns, in their order.
pub fn rows_from_columns(found: Vec<Columns>) -> (rows: Vec<TaskRow>)
    ensures
        rows@ == rows_of(found@),
{
    let mut rows: Vec<TaskRow> = Vec::new();
    for columns in it: found
        invariant
            rows@.len() == it.index(),
            forall|i: int| 0 <= i < it.index() ==> #[trigger] rows@[i] == row_of(it.seq()[i]),
    {
        rows.push(TaskRow::from_columns(columns));
    }
    rows
}

/// Reads rows as tasks, in their order.
pub fn decode_rows(rows: Vec<TaskRow>, fallback: Timestamp) -> (tasks: Vec<Task>)
    ensures
        tasks_view(tasks@) == decoded_rows(rows_view(rows@), fallback@),
{
    let mut tasks: Vec<Task> = Vec::new();
    for row in it: rows
        invariant
            tasks@.len() == it.index(),
            forall|i: int|
                0 <= i < it.index() ==> (#[trigger] tasks@[i])@ == it.seq()[i]@.decoded(fallback@),
    {
        tasks.push(row.decode(fallback));
    }
    tasks
}

/// Reads the first of the rows as a task; `None` where there is no row.
pub fn decode_first(rows: Vec<TaskRow>, fallback: Timestamp) -> (task: Option<Task>)
    ensures
        crate::task::task_view(task) == decoded_first(rows_view(rows@), fallback@),
{
    let mut rows = rows;
    if rows.len() == 0 {
        None
    } else {
        let first = rows.swap_remove(0);
        Some(first.decode(fallback))
    }
}

} // verus!

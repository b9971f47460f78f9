//! The SQL statements that the store runs: their text and their parameters.

use vstd::prelude::*;
use vstd::string::StringExecFns;

use crate::database::{TaskFilter, TaskFilterView, TaskStatus};
use crate::task::{Task, TaskView};
use crate::time::{rfc3339_text, Instant, Timestamp};

verus! {

/// Creates the one table, `tasks`. The foreign key is declared and not enforced.
pub const CREATE_TABLE: &'static str =
    "CREATE TABLE IF NOT EXISTS tasks (id INTEGER PRIMARY KEY AUTOINCREMENT, title TEXT NOT NULL, details TEXT, done INTEGER NOT NULL DEFAULT 0, due_date TEXT, is_recurring INTEGER NOT NULL DEFAULT 0, estimated_duration INTEGER, last_duration INTEGER, tag TEXT, parent_id INTEGER, created_at TEXT NOT NULL, updated_at TEXT NOT NULL, FOREIGN KEY(parent_id) REFERENCES tasks(id))";

/// Creates the index on the completion flag.
pub const CREATE_DONE_INDEX: &'static str =
    "CREATE INDEX IF NOT EXISTS idx_tasks_done ON tasks(done)";

/// Creates the index on the tag.
pub const CREATE_TAG_INDEX: &'static str = "CREATE INDEX IF NOT EXISTS idx_tasks_tag ON tasks(tag)";

/// Inserts one row; the id is left to the store.
pub const INSERT_TASK: &'static str =
    "INSERT INTO tasks (title, details, done, due_date, is_recurring, estimated_duration, last_duration, tag, parent_id, created_at, updated_at) VALUES (?1, ?2, ?3, ?4, ?5, ?6, ?7, ?8, ?9, ?10, ?11)";

/// Selects every column of every row, in the order of [`crate::row::TaskRow`]'s fields.
pub const SELECT_TASKS: &'static str =
    "SELECT id, title, details, done, due_date, is_recurring, estimated_duration, last_duration, tag, parent_id, created_at, updated_at FROM tasks";

/// Selects the tags in use: each once, none empty, in ascending order.
pub const SELECT_TAGS: &'static str =
    "SELECT DISTINCT tag FROM tasks WHERE tag IS NOT NULL AND tag != '' ORDER BY tag";

/// Sets the completion flag and the update time of one row.
pub const UPDATE_STATUS: &'static str = "UPDATE tasks SET done = ?1, updated_at = ?2 WHERE id = ?3";

/// Deletes the rows whose parent is a given task.
pub const DELETE_SUBTASKS: &'static str = "DELETE FROM tasks WHERE parent_id = ?1";

/// Deletes one row.
pub const DELETE_TASK: &'static str = "DELETE FROM tasks WHERE id = ?1";

/// Deletes every row.
pub const DELETE_ALL: &'static str = "DELETE FROM tasks";

/// Opens the conditions of a query.
pub const WHERE: &'static str = " WHERE ";

/// Stands between two conditions that both have to hold.
pub const AND: &'static str = " AND ";

/// The condition that a task is done.
pub const IS_DONE: &'static str = "done = 1";

/// The condition that a task is not done.
pub const IS_TODO: &'static str = "done = 0";

/// The condition that a task has exactly the tag that is bound next.
pub const TAG_IS: &'static str = "tag = ?";

/// The condition that a task is a subtask of the task whose id is bound next.
pub const PARENT_IS: &'static str = "parent_id = ?";

/// The condition that a task has the id that is bound first.
pub const ID_IS: &'static str = "id = ?1";

/// Orders the rows of a query by their creation time, the latest first.
pub const NEWEST_FIRST: &'static str = " ORDER BY created_at DESC";

/// A value bound to a parameter of a statement.
#[derive(Clone, Debug, PartialEq, Eq)]
pub enum SqlValue {
    Null,
    Integer(i64),
    Text(String),
}

/// The mathematical value of a [`SqlValue`].
pub ghost enum SqlValueView {
    Null,
    Integer(int),
    Text(Seq<char>),
}

impl View for SqlValue {
    type V = SqlValueView;

    open spec fn view(&self) -> SqlValueView {
        match self {
            SqlValue::Null => SqlValueView::Null,
            SqlValue::Integer(n) => SqlValueView::Integer(*n as int),
            SqlValue::Text(s) => SqlValueView::Text(s@),
        }
    }
}

impl SqlValueView {
    /// A flag is stored as 1 or 0.
    pub open spec fn flag(set: bool) -> SqlValueView {
        SqlValueView::Integer(
            if set {
                1
            } else {
                0
            },
        )
    }

    /// An absent text is stored as NULL.
    pub open spec fn optional_text(text: Option<Seq<char>>) -> SqlValueView {
        match text {
            Some(s) => SqlValueView::Text(s),
            None => SqlValueView::Null,
        }
    }

    /// An absent number of minutes is stored as NULL.
    pub open spec fn optional_minutes(minutes: Option<i32>) -> SqlValueView {
        match minutes {
            Some(n) => SqlValueView::Integer(n as int),
            None => SqlValueView::Null,
        }
    }

    /// An absent id is stored as NULL.
    pub open spec fn optional_id(id: Option<i64>) -> SqlValueView {
        match id {
            Some(n) => SqlValueView::Integer(n as int),
            None => SqlValueView::Null,
        }
    }
}

impl SqlValue {
    /// A flag as 1 or 0.
    pub fn flag(set: bool) -> (value: SqlValue)
        ensures
            value@ == SqlValueView::flag(set),
    {
        if set {
            SqlValue::Integer(1)
        } else {
            SqlValue::Integer(0)
        }
    }

    /// A text, or NULL where there is none.
    pub fn optional_text(text: &Option<String>) -> (value: SqlValue)
        ensures
            value@ == SqlValueView::optional_text(crate::task::text_view(*text)),
    {
        match text {
            Some(s) => SqlValue::Text(s.clone()),
            None => SqlValue::Null,
        }
    }

    /// A number of minutes, or NULL where there is none.
    pub fn optional_minutes(minutes: Option<i32>) -> (value: SqlValue)
        ensures
            value@ == SqlValueView::optional_minutes(minutes),
    {
        match minutes {
            Some(n) => SqlValue::Integer(n as i64),
            None => SqlValue::Null,
        }
    }

    /// An id, or NULL where there is none.
    pub fn optional_id(id: Option<i64>) -> (value: SqlValue)
        ensures
            value@ == SqlValueView::optional_id(id),
    {
        match id {
            Some(n) => SqlValue::Integer(n),
            None => SqlValue::Null,
        }
    }
}

/// The text that an optional instant is stored as.
pub open spec fn stored_instant(at: Option<Instant>) -> Option<Seq<char>> {
    match at {
        Some(t) => Some(rfc3339_text(t.secs, t.nanos)),
        None => None,
    }
}

/// The values of a list of parameters.
pub open spec fn values_view(values: Seq<SqlValue>) -> Seq<SqlValueView> {
    Seq::new(values.len(), |i: int| values[i]@)
}

/// The characters of each text of a list.
pub open spec fn texts_view(texts: Seq<&'static str>) -> Seq<Seq<char>> {
    Seq::new(texts.len(), |i: int| texts[i]@)
}

/// The texts of `parts` in their order, with `separator` between each two.
pub open spec fn joined(parts: Seq<Seq<char>>, separator: Seq<char>) -> Seq<char>
    decreases parts.len(),
{
    if parts.len() == 0 {
        Seq::empty()
    } else if parts.len() == 1 {
        parts[0]
    } else {
        joined(parts.drop_last(), separator) + separator + parts.last()
    }
}

/// Joins `parts` with `separator` between each two.
pub fn join(parts: &Vec<&'static str>, separator: &str) -> (text: String)
    ensures
        text@ == joined(texts_view(parts@), separator@),
{
    let mut text = String::new();
    let ghost all = texts_view(parts@);
    let mut i: usize = 0;
    while i < parts.len()
        invariant
            i <= parts.len(),
            all == texts_view(parts@),
            text@ == joined(all.take(i as int), separator@),
        decreases parts.len() - i,
    {
        proof {
            assert(all.take(i + 1).drop_last() == all.take(i as int));
        }
        if i > 0 {
            text.append(separator);
        }
        text.append(parts[i]);
        i = i + 1;
    }
    proof {
        assert(all.take(parts.len() as int) == all);
    }
    text
}

/// A statement as it is handed to the store: its text, and the values of its
/// parameters in their order.
#[derive(Clone, Debug, PartialEq, Eq)]
pub struct SqlStatement {
    pub text: String,
    pub params: Vec<SqlValue>,
}

/// The values of a list of statements.
pub open spec fn statements_view(statements: Seq<SqlStatement>) -> Seq<SqlStatementView> {
    Seq::new(statements.len(), |i: int| statements[i]@)
}

/// The mathematical value of a [`SqlStatement`].
pub ghost struct SqlStatementView {
    pub text: Seq<char>,
    pub params: Seq<SqlValueView>,
}

impl View for SqlStatement {
    type V = SqlStatementView;

    open spec fn view(&self) -> SqlStatementView {
        SqlStatementView { text: self.text@, params: values_view(self.params@) }
    }
}

impl SqlStatementView {
    /// A statement without parameters.
    pub open spec fn plain(text: Seq<char>) -> SqlStatementView {
        SqlStatementView { text, params: Seq::empty() }
    }

    /// The statements that define the schema, in the order in which they run.
    pub open spec fn schema() -> Seq<SqlStatementView> {
        seq![
            SqlStatementView::plain(CREATE_TABLE@),
            SqlStatementView::plain(CREATE_DONE_INDEX@),
            SqlStatementView::plain(CREATE_TAG_INDEX@),
        ]
    }

    /// The insertion of `task`, stamped with the text `stamp` as its creation
    /// and update time. The times that the task itself carries are not stored.
    pub open spec fn insert(task: TaskView, stamp: Seq<char>) -> SqlStatementView {
        SqlStatementView {
            text: INSERT_TASK@,
            params: seq![
                SqlValueView::Text(task.title),
                SqlValueView::optional_text(task.details),
                SqlValueView::flag(task.done),
                SqlValueView::optional_text(stored_instant(task.due_date)),
                SqlValueView::flag(task.is_recurring),
                SqlValueView::optional_minutes(task.estimated_duration),
                SqlValueView::optional_minutes(task.last_duration),
                SqlValueView::optional_text(task.tag),
                SqlValueView::optional_id(task.parent_id),
                SqlValueView::Text(stamp),
                SqlValueView::Text(stamp),
            ],
        }
    }

    /// The conditions that a filter imposes, in the order status, tag, parent.
    /// A field that the filter leaves out imposes none.
    pub open spec fn conditions(filter: TaskFilterView) -> Seq<Seq<char>> {
        (match filter.status {
            Some(TaskStatus::Done) => seq![IS_DONE@],
            Some(TaskStatus::Todo) => seq![IS_TODO@],
            None => Seq::empty(),
        }) + (if filter.tag is Some {
            seq![TAG_IS@]
        } else {
            Seq::empty()
        }) + (if filter.parent_id is Some {
            seq![PARENT_IS@]
        } else {
            Seq::empty()
        })
    }

    /// The values that the conditions of a filter compare with, in the order of
    /// the conditions.
    pub open spec fn condition_values(filter: TaskFilterView) -> Seq<SqlValueView> {
        (match filter.tag {
            Some(tag) => seq![SqlValueView::Text(tag)],
            None => Seq::empty(),
        }) + (match filter.parent_id {
            Some(parent) => seq![SqlValueView::Integer(parent as int)],
            None => Seq::empty(),
        })
    }

    /// The clause that holds all of `conditions`, or nothing where there is none.
    pub open spec fn where_clause(conditions: Seq<Seq<char>>) -> Seq<char> {
        if conditions.len() == 0 {
            Seq::empty()
        } else {
            WHERE@ + joined(conditions, AND@)
        }
    }

    /// The query for the tasks that a filter admits, most recently created first.
    pub open spec fn fetch(filter: TaskFilterView) -> SqlStatementView {
        SqlStatementView {
            text: SELECT_TASKS@ + SqlStatementView::where_clause(
                SqlStatementView::conditions(filter),
            ) + NEWEST_FIRST@,
            params: SqlStatementView::condition_values(filter),
        }
    }

    /// The query for the task with this id.
    pub open spec fn fetch_by_id(id: i64) -> SqlStatementView {
        SqlStatementView {
            text: SELECT_TASKS@ + WHERE@ + ID_IS@,
            params: seq![SqlValueView::Integer(id as int)],
        }
    }

    /// The query for the tags in use.
    pub open spec fn fetch_tags() -> SqlStatementView {
        SqlStatementView::plain(SELECT_TAGS@)
    }

    /// The update of the completion flag of the task with this id, stamped with
    /// the text `stamp` as its update time.
    pub open spec fn update_status(id: i64, done: bool, stamp: Seq<char>) -> SqlStatementView {
        SqlStatementView {
            text: UPDATE_STATUS@,
            params: seq![
                SqlValueView::flag(done),
                SqlValueView::Text(stamp),
                SqlValueView::Integer(id as int),
            ],
        }
    }

    /// The deletion of the subtasks of the task with this id.
    pub open spec fn delete_subtasks(id: i64) -> SqlStatementView {
        SqlStatementView {
            text: DELETE_SUBTASKS@,
            params: seq![SqlValueView::Integer(id as int)],
        }
    }

    /// The deletion of the task with this id.
    pub open spec fn delete_task(id: i64) -> SqlStatementView {
        SqlStatementView { text: DELETE_TASK@, params: seq![SqlValueView::Integer(id as int)] }
    }

    /// The deletion of every task.
    pub open spec fn delete_all() -> SqlStatementView {
        SqlStatementView::plain(DELETE_ALL@)
    }
}

impl SqlStatement {
    /// A statement without parameters.
    pub fn plain(text: &str) -> (statement: SqlStatement)
        ensures
            statement@ == SqlStatementView::plain(text@),
    {
        let statement = SqlStatement { text: text.to_owned(), params: Vec::new() };
        assert(statement@.params =~= Seq::empty());
        statement
    }

    /// The statements that define the schema, in the order in which they run.
    pub fn schema() -> (statements: Vec<SqlStatement>)
        ensures
            statements_view(statements@) == SqlStatementView::schema(),
    {
        let mut statements: Vec<SqlStatement> = Vec::new();
        statements.push(SqlStatement::plain(CREATE_TABLE));
        statements.push(SqlStatement::plain(CREATE_DONE_INDEX));
        statements.push(SqlStatement::plain(CREATE_TAG_INDEX));
        statements
    }

    /// The insertion of `task`, stamped with `now` as its creation and update time.
    pub fn insert(task: &Task, now: &Timestamp) -> (statement: SqlStatement)
        ensures
            statement@ == SqlStatementView::insert(
                task@,
                rfc3339_text(now@.secs, now@.nanos),
            ),
    {
        let due = match &task.due_date {
            Some(due) => Some(due.to_rfc3339()),
            None => None,
        };
        let mut params: Vec<SqlValue> = Vec::new();
        params.push(SqlValue::Text(task.title.clone()));
        params.push(SqlValue::optional_text(&task.details));
        params.push(SqlValue::flag(task.done));
        params.push(SqlValue::optional_text(&due));
        params.push(SqlValue::flag(task.is_recurring));
        params.push(SqlValue::optional_minutes(task.estimated_duration));
        params.push(SqlValue::optional_minutes(task.last_duration));
        params.push(SqlValue::optional_text(&task.tag));
        params.push(SqlValue::optional_id(task.parent_id));
        params.push(SqlValue::Text(now.to_rfc3339()));
        params.push(SqlValue::Text(now.to_rfc3339()));
        let statement = SqlStatement { text: INSERT_TASK.to_owned(), params };
        assert(statement@.params =~= SqlStatementView::insert(
            task@,
            rfc3339_text(now@.secs, now@.nanos),
        ).params);
        statement
    }

    /// The query for the tasks that a filter admits, most recently created first.
    pub fn fetch(filter: &TaskFilter) -> (statement: SqlStatement)
        ensures
            statement@ == SqlStatementView::fetch(filter@),
    {
        let mut conditions: Vec<&'static str> = Vec::new();
        let mut params: Vec<SqlValue> = Vec::new();
        match filter.status {
            Some(TaskStatus::Done) => {
                conditions.push(IS_DONE);
            },
            Some(TaskStatus::Todo) => {
                conditions.push(IS_TODO);
            },
            None => {},
        }
        if let Some(tag) = &filter.tag {
            conditions.push(TAG_IS);
            params.push(SqlValue::Text(tag.clone()));
        }
        if let Some(parent_id) = filter.parent_id {
            conditions.push(PARENT_IS);
            params.push(SqlValue::Integer(parent_id));
        }
        assert(texts_view(conditions@) =~= SqlStatementView::conditions(filter@));
        assert(values_view(params@) =~= SqlStatementView::condition_values(filter@));
        let mut text = SELECT_TASKS.to_owned();
        if conditions.len() > 0 {
            text.append(WHERE);
            let all = join(&conditions, AND);
            text.append(all.as_str());
        }
        text.append(NEWEST_FIRST);
        let statement = SqlStatement { text, params };
        assert(statement@.text =~= SqlStatementView::fetch(filter@).text);
        statement
    }

    /// The query for the task with this id.
    pub fn fetch_by_id(id: i64) -> (statement: SqlStatement)
        ensures
            statement@ == SqlStatementView::fetch_by_id(id),
    {
        let mut text = SELECT_TASKS.to_owned();
        text.append(WHERE);
        text.append(ID_IS);
        let mut params: Vec<SqlValue> = Vec::new();
        params.push(SqlValue::Integer(id));
        let statement = SqlStatement { text, params };
        assert(statement@.params =~= SqlStatementView::fetch_by_id(id).params);
        statement
    }

    /// The query for the tags in use.
    pub fn fetch_tags() -> (statement: SqlStatement)
        ensures
            statement@ == SqlStatementView::fetch_tags(),
    {
        SqlStatement::plain(SELECT_TAGS)
    }

    /// The update of the completion flag of the task with this id, stamped with
    /// `now` as its update time.
    pub fn update_status(id: i64, done: bool, now: &Timestamp) -> (statement: SqlStatement)
        ensures
            statement@ == SqlStatementView::update_status(
                id,
                done,
                rfc3339_text(now@.secs, now@.nanos),
            ),
    {
        let mut params: Vec<SqlValue> = Vec::new();
        params.push(SqlValue::flag(done));
        params.push(SqlValue::Text(now.to_rfc3339()));
        params.push(SqlValue::Integer(id));
        let statement = SqlStatement { text: UPDATE_STATUS.to_owned(), params };
        assert(statement@.params =~= SqlStatementView::update_status(
            id,
            done,
            rfc3339_text(now@.secs, now@.nanos),
        ).params);
        statement
    }

    /// The deletion of the subtasks of the task with this id.
    pub fn delete_subtasks(id: i64) -> (statement: SqlStatement)
        ensures
            statement@ == SqlStatementView::delete_subtasks(id),
    {
        let mut params: Vec<SqlValue> = Vec::new();
        params.push(SqlValue::Integer(id));
        let statement = SqlStatement { text: DELETE_SUBTASKS.to_owned(), params };
        assert(statement@.params =~= SqlStatementView::delete_subtasks(id).params);
        statement
    }

    /// The deletion of the task with this id.
    pub fn delete_task(id: i64) -> (statement: SqlStatement)
        ensures
            statement@ == SqlStatementView::delete_task(id),
    {
        let mut params: Vec<SqlValue> = Vec::new();
        params.push(SqlValue::Integer(id));
        let statement = SqlStatement { text: DELETE_TASK.to_owned(), params };
        assert(statement@.params =~= SqlStatementView::delete_task(id).params);
        statement
    }

    /// The deletion of every task.
    pub fn delete_all() -> (statement: SqlStatement)
        ensures
            statement@ == SqlStatementView::delete_all(),
    {
        SqlStatement::plain(DELETE_ALL)
    }
}

} // verus!

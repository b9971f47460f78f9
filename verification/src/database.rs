//! The store: one SQLite database with the `tasks` table, reached through
//! `rusqlite`.
//!
//! What the database holds, and so what a query returns and which id an
//! insertion gets, is decided by SQLite. The contracts here state which
//! statements the store is handed, what each operation makes of the store's
//! answer, and how the rows that come back are read. Every operation takes the
//! store by `&mut`: a connection serves one caller at a time.

use vstd::prelude::*;

use crate::placeholders::{
    lemma_deletion_of_all_binds_every_parameter, lemma_deletions_bind_every_parameter,
    lemma_insertion_binds_every_parameter, lemma_query_binds_every_parameter,
    lemma_query_by_id_binds_every_parameter, lemma_query_for_tags_binds_every_parameter,
    lemma_schema_binds_every_parameter, lemma_update_binds_every_parameter,
};
use crate::row::{decode_first, decode_rows, decoded_first, decoded_rows, TaskRowView};
use crate::statement::{statements_view, SqlStatement, SqlStatementView};
use crate::store::{strings_view, Answer, Store};
use crate::task::{task_view, tasks_view, Task, TaskView};
use crate::time::{representable, rfc3339_text, Instant, Timestamp};

verus! {

/// The completion states that a filter can ask for.
#[derive(Clone, Copy, Debug, PartialEq, Eq, Structural)]
pub enum TaskStatus {
    Done,
    Todo,
}

/// A conjunction of conditions on tasks. A field that is `None` imposes no
/// condition.
#[derive(Clone, Debug)]
pub struct TaskFilter {
    pub status: Option<TaskStatus>,
    /// Compared exactly and case-sensitively.
    pub tag: Option<String>,
    pub parent_id: Option<i64>,
}

/// The mathematical value of a [`TaskFilter`].
pub ghost struct TaskFilterView {
    pub status: Option<TaskStatus>,
    pub tag: Option<Seq<char>>,
    pub parent_id: Option<i64>,
}

impl View for TaskFilter {
    type V = TaskFilterView;

    open spec fn view(&self) -> TaskFilterView {
        TaskFilterView {
            status: self.status,
            tag: crate::task::text_view(self.tag),
            parent_id: self.parent_id,
        }
    }
}

impl TaskFilterView {
    /// The filter that admits every task.
    pub open spec fn all() -> TaskFilterView {
        TaskFilterView { status: None, tag: None, parent_id: None }
    }

    /// The filter that admits the tasks in this state.
    pub open spec fn in_state(status: TaskStatus) -> TaskFilterView {
        TaskFilterView { status: Some(status), tag: None, parent_id: None }
    }

    /// The filter that admits the tasks with this tag.
    pub open spec fn tagged(tag: Seq<char>) -> TaskFilterView {
        TaskFilterView { status: None, tag: Some(tag), parent_id: None }
    }

    /// The filter that admits the subtasks of the task with this id.
    pub open spec fn subtasks_of(parent_id: i64) -> TaskFilterView {
        TaskFilterView { status: None, tag: None, parent_id: Some(parent_id) }
    }
}

impl Default for TaskFilter {
    fn default() -> (filter: TaskFilter)
        ensures
            filter@ == TaskFilterView::all(),
    {
        TaskFilter { status: None, tag: None, parent_id: None }
    }
}

/// A failure of the store: of opening it, or of preparing, running or reading a
/// statement.
#[derive(Debug)]
pub struct StorageError {
    pub cause: rusqlite::Error,
}

/// The message of a `rusqlite::Error`, as its `Display` writes it.
#[verifier::external_body]
fn describe(error: &rusqlite::Error) -> String {
    error.to_string()
}

impl StorageError {
    /// What went wrong, in words.
    pub fn message(&self) -> String {
        describe(&self.cause)
    }
}

/// Whether the record `after` is the record `before` and then the insertion of
/// `task`, stamped with the text of some instant.
pub open spec fn inserted(
    before: Seq<SqlStatementView>,
    after: Seq<SqlStatementView>,
    task: TaskView,
) -> bool {
    exists|secs: int, nanos: int|
        representable(secs, nanos) && after == before.push(
            SqlStatementView::insert(task, #[trigger] rfc3339_text(secs, nanos)),
        )
}

/// Whether the record `after` is the record `before` and then the update of the
/// completion flag of the task with this id, stamped with the text of some
/// instant.
pub open spec fn status_set(
    before: Seq<SqlStatementView>,
    after: Seq<SqlStatementView>,
    id: i64,
    done: bool,
) -> bool {
    exists|secs: int, nanos: int|
        representable(secs, nanos) && after == before.push(
            SqlStatementView::update_status(id, done, #[trigger] rfc3339_text(secs, nanos)),
        )
}

/// Whether the answers `after` are the answers `before` and then some rows,
/// and `tasks` are what those rows stand for, in their order, with some instant
/// that the clock read as the fallback time.
pub open spec fn read_from_rows(
    before: Seq<Answer>,
    after: Seq<Answer>,
    tasks: Seq<TaskView>,
) -> bool {
    exists|rows: Seq<TaskRowView>, fallback: Instant|
        representable(fallback.secs, fallback.nanos) && after == before.push(Answer::Rows(rows))
            && tasks == #[trigger] decoded_rows(rows, fallback)
}

/// Whether the answers `after` are the answers `before` and then some rows,
/// and `task` is what the first of those rows stands for, with some instant
/// that the clock read as the fallback time, or `None` where there is no row.
pub open spec fn read_from_first_row(
    before: Seq<Answer>,
    after: Seq<Answer>,
    task: Option<TaskView>,
) -> bool {
    exists|rows: Seq<TaskRowView>, fallback: Instant|
        representable(fallback.secs, fallback.nanos) && after == before.push(Answer::Rows(rows))
            && task == #[trigger] decoded_first(rows, fallback)
}

/// The answers of a store that carried out every statement of the schema.
pub open spec fn schema_defined() -> Seq<Answer> {
    seq![Answer::Done, Answer::Done, Answer::Done]
}

/// The store of tasks: one database with the `tasks` table.
pub struct Database {
    store: Store,
}

impl Database {
    /// The path of the file that the database was opened on, or `None` for a
    /// database in memory.
    pub closed spec fn location(&self) -> Option<Seq<char>> {
        self.store.location()
    }

    /// The statements that were handed to the store through this database,
    /// queries and changes alike, oldest first. A statement is on record
    /// whether or not the store carried it out.
    pub closed spec fn issued(&self) -> Seq<SqlStatementView> {
        self.store.issued()
    }

    /// What the store did with each of the statements on record, in their
    /// order.
    pub closed spec fn answers(&self) -> Seq<Answer> {
        self.store.answers()
    }

    /// Defines the table and its indexes where they do not exist yet. Stops at
    /// the first statement that fails: the statements before it were carried
    /// out, and the failure is that of the store.
    fn init_schema(&mut self) -> (res: Result<(), StorageError>)
        ensures
            final(self).location() == old(self).location(),
            res is Ok ==> final(self).issued() == old(self).issued() + SqlStatementView::schema()
                && final(self).answers() == old(self).answers() + schema_defined(),
            res matches Err(error) ==> exists|k: int|
                0 <= k < 3 && final(self).issued() == old(self).issued()
                    + #[trigger] SqlStatementView::schema().take(k + 1) && final(self).answers() == (
                    old(self).answers() + schema_defined().take(k)).push(Answer::failure(error)),
    {
        let statements = SqlStatement::schema();
        let ghost issued = self.issued();
        let ghost answers = self.answers();
        assert(statements_view(statements@).len() == 3);
        let mut i: usize = 0;
        while i < statements.len()
            invariant
                i <= statements.len() == 3,
                statements_view(statements@) == SqlStatementView::schema(),
                issued == old(self).issued(),
                answers == old(self).answers(),
                self.location() == old(self).location(),
                self.issued() == issued + SqlStatementView::schema().take(i as int),
                self.answers() == answers + schema_defined().take(i as int),
            decreases statements.len() - i,
        {
            proof {
                lemma_schema_binds_every_parameter();
            }
            let res = self.store.run(&statements[i]);
            proof {
                assert(statements_view(statements@)[i as int] == statements@[i as int]@);
                assert(self.issued() == issued + SqlStatementView::schema().take(i + 1));
            }
            match res {
                Ok(_) => {},
                Err(error) => {
                    proof {
                        let k = i as int;
                        assert(self.issued() == issued + SqlStatementView::schema().take(k + 1));
                        assert(self.answers() == (answers + schema_defined().take(k)).push(
                            Answer::failure(error),
                        ));
                    }
                    return Err(error);
                },
            }
            proof {
                assert(self.answers() == answers + schema_defined().take(i + 1));
            }
            i = i + 1;
        }
        proof {
            assert(SqlStatementView::schema().take(3) == SqlStatementView::schema());
            assert(schema_defined().take(3) == schema_defined());
        }
        Ok(())
    }

    /// The database over a store that was just opened, with the schema
    /// defined; where the store could not be opened, the failure of the opening.
    fn with_schema(opened: Result<Store, StorageError>) -> (res: Result<Database, StorageError>)
        requires
            opened matches Ok(store) ==> store.is_fresh(),
        ensures
            res matches Ok(db) ==> {
                &&& opened matches Ok(store)
                &&& db.location() == store.location()
                &&& db.issued() == SqlStatementView::schema()
                &&& db.answers() == schema_defined()
            },
            opened matches Err(failure) ==> res matches Err(error) && error == failure,
    {
        match opened {
            Ok(store) => {
                let mut db = Database { store };
                match db.init_schema() {
                    Ok(()) => Ok(db),
                    Err(error) => Err(error),
                }
            },
            Err(failure) => Err(failure),
        }
    }

    /// Opens the database file at `db_path`, creating it where there is none,
    /// and defines the schema. It succeeds only where the store carried out
    /// every statement of the schema.
    pub fn new(db_path: &str) -> (res: Result<Database, StorageError>)
        ensures
            res matches Ok(db) ==> {
                &&& db.location() == Some(db_path@)
                &&& db.issued() == SqlStatementView::schema()
                &&& db.answers() == schema_defined()
            },
    {
        Database::with_schema(Store::open(db_path))
    }

    /// Opens a database in memory, which lives as long as the connection, and
    /// defines the schema. It succeeds only where the store carried out every
    /// statement of the schema.
    pub fn new_in_memory() -> (res: Result<Database, StorageError>)
        ensures
            res matches Ok(db) ==> {
                &&& db.location() is None
                &&& db.issued() == SqlStatementView::schema()
                &&& db.answers() == schema_defined()
            },
    {
        Database::with_schema(Store::open_in_memory())
    }

    /// Stores `task` as a new row, stamped with the current time as its
    /// creation and update time, and returns the id that the store gave the
    /// row. It succeeds exactly where the store carried out the insertion, and
    /// fails with the store's cause.
    pub fn insert_task(&mut self, task: &Task) -> (res: Result<i64, StorageError>)
        ensures
            final(self).location() == old(self).location(),
            inserted(old(self).issued(), final(self).issued(), task@),
            final(self).answers() == old(self).answers().push(Answer::to_insertion(res)),
    {
        let now = Timestamp::now();
        let statement = SqlStatement::insert(task, &now);
        proof {
            lemma_insertion_binds_every_parameter(task@, rfc3339_text(now@.secs, now@.nanos));
        }
        self.store.insert(&statement)
    }

    /// The tasks that `filter` admits, most recently created first, as the
    /// store returns them. A due date, creation time or update time that cannot
    /// be read is replaced by the current time. It succeeds exactly where the
    /// store answered the query, and fails with the store's cause.
    pub fn fetch_tasks(&mut self, filter: TaskFilter) -> (res: Result<Vec<Task>, StorageError>)
        ensures
            final(self).location() == old(self).location(),
            final(self).issued() == old(self).issued().push(SqlStatementView::fetch(filter@)),
            res matches Ok(tasks) ==> read_from_rows(
                old(self).answers(),
                final(self).answers(),
                tasks_view(tasks@),
            ),
            res matches Err(error) ==> final(self).answers() == old(self).answers().push(
                Answer::failure(error),
            ),
    {
        proof {
            lemma_query_binds_every_parameter(filter@);
        }
        match self.store.ask(&SqlStatement::fetch(&filter)) {
            Ok(rows) => Ok(decode_rows(rows, Timestamp::now())),
            Err(error) => Err(error),
        }
    }

    /// The tags in use, as the store returns them. It succeeds exactly where
    /// the store answered the query, and fails with the store's cause.
    pub fn fetch_all_tags(&mut self) -> (res: Result<Vec<String>, StorageError>)
        ensures
            final(self).location() == old(self).location(),
            final(self).issued() == old(self).issued().push(SqlStatementView::fetch_tags()),
            res matches Ok(tags) ==> final(self).answers() == old(self).answers().push(
                Answer::Texts(strings_view(tags@)),
            ),
            res matches Err(error) ==> final(self).answers() == old(self).answers().push(
                Answer::failure(error),
            ),
    {
        proof {
            lemma_query_for_tags_binds_every_parameter();
        }
        self.store.ask_for_texts(&SqlStatement::fetch_tags())
    }

    /// Sets the completion flag of the task with this id and stamps its update
    /// time with the current time. It succeeds exactly where the store carried
    /// out the update, which it also does where no row has this id, and fails
    /// with the store's cause.
    pub fn update_task_status(&mut self, id: i64, done: bool) -> (res: Result<(), StorageError>)
        ensures
            final(self).location() == old(self).location(),
            status_set(old(self).issued(), final(self).issued(), id, done),
            final(self).answers() == old(self).answers().push(Answer::to_change(res)),
    {
        let now = Timestamp::now();
        let statement = SqlStatement::update_status(id, done, &now);
        proof {
            lemma_update_binds_every_parameter(id, done, rfc3339_text(now@.secs, now@.nanos));
        }
        match self.store.run(&statement) {
            Ok(_) => Ok(()),
            Err(error) => Err(error),
        }
    }

    /// Deletes the subtasks of the task with this id, then the task itself.
    /// Where the first deletion fails the second is not tried. It succeeds
    /// exactly where the store carried out both, and fails with the cause of
    /// the deletion that failed.
    pub fn delete_task(&mut self, id: i64) -> (res: Result<(), StorageError>)
        ensures
            final(self).location() == old(self).location(),
            res is Ok ==> {
                &&& final(self).issued() == old(self).issued().push(
                    SqlStatementView::delete_subtasks(id),
                ).push(SqlStatementView::delete_task(id))
                &&& final(self).answers() == old(self).answers().push(Answer::Done).push(
                    Answer::Done,
                )
            },
            res matches Err(error) ==> {
                ||| {
                    &&& final(self).issued() == old(self).issued().push(
                        SqlStatementView::delete_subtasks(id),
                    )
                    &&& final(self).answers() == old(self).answers().push(Answer::failure(error))
                }
                ||| {
                    &&& final(self).issued() == old(self).issued().push(
                        SqlStatementView::delete_subtasks(id),
                    ).push(SqlStatementView::delete_task(id))
                    &&& final(self).answers() == old(self).answers().push(Answer::Done).push(
                        Answer::failure(error),
                    )
                }
            },
    {
        proof {
            lemma_deletions_bind_every_parameter(id);
        }
        match self.store.run(&SqlStatement::delete_subtasks(id)) {
            Ok(_) => {},
            Err(error) => {
                return Err(error);
            },
        }
        match self.store.run(&SqlStatement::delete_task(id)) {
            Ok(_) => Ok(()),
            Err(error) => Err(error),
        }
    }

    /// Deletes every task. It succeeds exactly where the store carried out the
    /// deletion, and fails with the store's cause.
    pub fn clear_all_tasks(&mut self) -> (res: Result<(), StorageError>)
        ensures
            final(self).location() == old(self).location(),
            final(self).issued() == old(self).issued().push(SqlStatementView::delete_all()),
            final(self).answers() == old(self).answers().push(Answer::to_change(res)),
    {
        proof {
            lemma_deletion_of_all_binds_every_parameter();
        }
        match self.store.run(&SqlStatement::delete_all()) {
            Ok(_) => Ok(()),
            Err(error) => Err(error),
        }
    }

    /// The task with this id, or `None` where the store has no such row. It
    /// succeeds exactly where the store answered the query, and fails with the
    /// store's cause.
    pub fn get_task_by_id(&mut self, id: i64) -> (res: Result<Option<Task>, StorageError>)
        ensures
            final(self).location() == old(self).location(),
            final(self).issued() == old(self).issued().push(SqlStatementView::fetch_by_id(id)),
            res matches Ok(found) ==> read_from_first_row(
                old(self).answers(),
                final(self).answers(),
                task_view(found),
            ),
            res matches Err(error) ==> final(self).answers() == old(self).answers().push(
                Answer::failure(error),
            ),
    {
        proof {
            lemma_query_by_id_binds_every_parameter(id);
        }
        match self.store.ask(&SqlStatement::fetch_by_id(id)) {
            Ok(rows) => Ok(decode_first(rows, Timestamp::now())),
            Err(error) => Err(error),
        }
    }
}

} // verus!

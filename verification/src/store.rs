//! The connection to SQLite through `rusqlite`, the place that it was opened
//! on, and the transcript of what passed over it.
//!
//! Only the functions that hand a statement over, [`Store::run`],
//! [`Store::insert`], [`Store::ask`] and [`Store::ask_for_texts`], write the
//! transcript: each puts on record the statement that it hands to `rusqlite`
//! and what came back. The fields are private to this module, so no other code
//! can put a statement on record without handing it over, nor report an answer
//! that the store did not give. The place is put on record where the
//! connection is opened, and no operation changes it.

use vstd::prelude::*;

use crate::database::StorageError;
use crate::placeholders::binds_every_parameter;
use crate::row::{rows_from_columns, rows_view, Columns, TaskRow, TaskRowView};
use crate::statement::{SqlStatement, SqlStatementView, SqlValue};

verus! {

/// `rusqlite::Connection`: a handle to one SQLite database. Nothing is known
/// of what is behind it.
#[verifier::external_type_specification]
#[verifier::external_body]
pub struct ExConnection(rusqlite::Connection);

/// `rusqlite::Error`: why a call into `rusqlite` failed.
#[verifier::external_type_specification]
#[verifier::external_body]
pub struct ExError(rusqlite::Error);

/// Opens the database file at `path` with `rusqlite::Connection::open`, which
/// creates the file where there is none. Whether that succeeds is decided by
/// the file system.
#[verifier::external_body]
fn open_file(path: &str) -> Result<rusqlite::Connection, rusqlite::Error> {
    rusqlite::Connection::open(path)
}

/// Opens a database of its own in memory with
/// `rusqlite::Connection::open_in_memory`.
#[verifier::external_body]
fn open_memory() -> Result<rusqlite::Connection, rusqlite::Error> {
    rusqlite::Connection::open_in_memory()
}

/// Runs a statement that returns no rows with `rusqlite::Connection::execute`.
/// Each parameter is bound as the variant of `rusqlite::types::Value` of its
/// own name, with its own content, in the order of `params`. What the statement
/// changes, and whether it succeeds, is decided by the database.
#[verifier::external_body]
fn execute(conn: &rusqlite::Connection, text: &str, params: &Vec<SqlValue>) -> Result<
    usize,
    rusqlite::Error,
> {
    conn.execute(text, rusqlite::params_from_iter(params.iter().map(|param| match param {
        SqlValue::Null => rusqlite::types::Value::Null,
        SqlValue::Integer(number) => rusqlite::types::Value::Integer(*number),
        SqlValue::Text(text) => rusqlite::types::Value::Text(text.clone()),
    })))
}

/// The id of the row that the connection inserted last, from
/// `rusqlite::Connection::last_insert_rowid`.
#[verifier::external_body]
fn last_insert_rowid(conn: &rusqlite::Connection) -> i64 {
    conn.last_insert_rowid()
}

/// Runs a query over the twelve columns of `tasks` with
/// `rusqlite::Connection::prepare` and `rusqlite::Statement::query_map`, and
/// reads each row with `rusqlite`'s `TryFrom<&Row>` for tuples, which reads
/// column after column in the types of the tuple. Each parameter is bound as
/// the variant of `rusqlite::types::Value` of its own name, with its own
/// content, in the order of `params`. A column that does not hold its type
/// fails the whole query. Which rows come back is decided by the database.
#[verifier::external_body]
fn query_columns(conn: &rusqlite::Connection, text: &str, params: &Vec<SqlValue>) -> Result<
    Vec<Columns>,
    rusqlite::Error,
> {
    let mut prepared = conn.prepare(text)?;
    let values = params.iter().map(|param| match param {
        SqlValue::Null => rusqlite::types::Value::Null,
        SqlValue::Integer(number) => rusqlite::types::Value::Integer(*number),
        SqlValue::Text(text) => rusqlite::types::Value::Text(text.clone()),
    });
    let rows = prepared.query_map(rusqlite::params_from_iter(values), |row| {
        Columns::try_from(row)
    })?;
    rows.collect()
}

/// Runs a query over one column of text with `rusqlite::Connection::prepare`
/// and `rusqlite::Statement::query_map`, and reads each row with
/// `rusqlite::Row::get`. Each parameter is bound as the variant of
/// `rusqlite::types::Value` of its own name, with its own content, in the
/// order of `params`. Which texts come back is decided by the database.
#[verifier::external_body]
fn query_texts(conn: &rusqlite::Connection, text: &str, params: &Vec<SqlValue>) -> Result<
    Vec<String>,
    rusqlite::Error,
> {
    let mut prepared = conn.prepare(text)?;
    let values = params.iter().map(|param| match param {
        SqlValue::Null => rusqlite::types::Value::Null,
        SqlValue::Integer(number) => rusqlite::types::Value::Integer(*number),
        SqlValue::Text(text) => rusqlite::types::Value::Text(text.clone()),
    });
    let rows = prepared.query_map(rusqlite::params_from_iter(values), |row| row.get(0))?;
    rows.collect()
}

/// The characters of each text of a list.
pub open spec fn strings_view(texts: Seq<String>) -> Seq<Seq<char>> {
    Seq::new(texts.len(), |i: int| texts[i]@)
}

/// What the store did with one statement that it was handed.
pub ghost enum Answer {
    /// The store refused the statement or failed over it, for this cause.
    Failed(rusqlite::Error),
    /// The store carried out a change.
    Done,
    /// The store carried out an insertion and gave the new row this id.
    Inserted(i64),
    /// The store answered a query for tasks with these rows, in this order.
    Rows(Seq<TaskRowView>),
    /// The store answered a query for texts with these, in this order.
    Texts(Seq<Seq<char>>),
}

impl Answer {
    /// The answer that an error reports: the failure with the error's cause.
    pub open spec fn failure(error: StorageError) -> Answer {
        Answer::Failed(error.cause)
    }

    /// The answer that the outcome of a change reports: done, or the failure
    /// with the error's cause.
    pub open spec fn to_change<T>(outcome: Result<T, StorageError>) -> Answer {
        match outcome {
            Ok(_) => Answer::Done,
            Err(error) => Answer::failure(error),
        }
    }

    /// The answer that the outcome of an insertion reports: the id of the new
    /// row, or the failure with the error's cause.
    pub open spec fn to_insertion(outcome: Result<i64, StorageError>) -> Answer {
        match outcome {
            Ok(id) => Answer::Inserted(id),
            Err(error) => Answer::failure(error),
        }
    }
}

/// A connection to one database, the place of that database, and the
/// transcript of what passed over the connection.
pub struct Store {
    conn: rusqlite::Connection,
    location: Ghost<Option<Seq<char>>>,
    issued: Ghost<Seq<SqlStatementView>>,
    answers: Ghost<Seq<Answer>>,
}

impl Store {
    /// The path of the file that the store was opened on, or `None` for a
    /// store in memory.
    pub closed spec fn location(&self) -> Option<Seq<char>> {
        self.location@
    }

    /// The statements that were handed to the store over this connection,
    /// queries and changes alike, oldest first. A statement is on record
    /// whether or not the store carried it out.
    pub closed spec fn issued(&self) -> Seq<SqlStatementView> {
        self.issued@
    }

    /// What the store did with each of the statements on record, in their
    /// order.
    pub closed spec fn answers(&self) -> Seq<Answer> {
        self.answers@
    }

    /// Whether nothing has passed over the connection yet.
    pub open spec fn is_fresh(&self) -> bool {
        self.issued() == Seq::<SqlStatementView>::empty() && self.answers() == Seq::<
            Answer,
        >::empty()
    }

    /// Opens the database file at `path`, creating it where there is none.
    pub(crate) fn open(path: &str) -> (res: Result<Store, StorageError>)
        ensures
            res matches Ok(store) ==> store.location() == Some(path@) && store.is_fresh(),
    {
        match open_file(path) {
            Ok(conn) => Ok(
                Store {
                    conn,
                    location: Ghost(Some(path@)),
                    issued: Ghost(Seq::empty()),
                    answers: Ghost(Seq::empty()),
                },
            ),
            Err(cause) => Err(StorageError { cause }),
        }
    }

    /// Opens a database in memory, which lives as long as the connection.
    pub(crate) fn open_in_memory() -> (res: Result<Store, StorageError>)
        ensures
            res matches Ok(store) ==> store.location() is None && store.is_fresh(),
    {
        match open_memory() {
            Ok(conn) => Ok(
                Store {
                    conn,
                    location: Ghost(None),
                    issued: Ghost(Seq::empty()),
                    answers: Ghost(Seq::empty()),
                },
            ),
            Err(cause) => Err(StorageError { cause }),
        }
    }

    /// Hands a change to the store, and puts it and its outcome on record.
    /// Like every statement that reaches the store, it binds a value to each
    /// of its parameters.
    pub(crate) fn run(&mut self, statement: &SqlStatement) -> (res: Result<usize, StorageError>)
        requires
            binds_every_parameter(statement@),
        ensures
            final(self).location() == old(self).location(),
            final(self).issued() == old(self).issued().push(statement@),
            final(self).answers() == old(self).answers().push(Answer::to_change(res)),
    {
        self.issued = Ghost(self.issued@.push(statement@));
        match execute(&self.conn, statement.text.as_str(), &statement.params) {
            Ok(changed) => {
                self.answers = Ghost(self.answers@.push(Answer::Done));
                Ok(changed)
            },
            Err(cause) => {
                self.answers = Ghost(self.answers@.push(Answer::Failed(cause)));
                Err(StorageError { cause })
            },
        }
    }

    /// Hands an insertion to the store, asks it for the id that it gave the new
    /// row, and puts the insertion and its outcome on record.
    pub(crate) fn insert(&mut self, statement: &SqlStatement) -> (res: Result<i64, StorageError>)
        requires
            binds_every_parameter(statement@),
        ensures
            final(self).location() == old(self).location(),
            final(self).issued() == old(self).issued().push(statement@),
            final(self).answers() == old(self).answers().push(Answer::to_insertion(res)),
    {
        self.issued = Ghost(self.issued@.push(statement@));
        match execute(&self.conn, statement.text.as_str(), &statement.params) {
            Ok(_) => {
                let id = last_insert_rowid(&self.conn);
                self.answers = Ghost(self.answers@.push(Answer::Inserted(id)));
                Ok(id)
            },
            Err(cause) => {
                self.answers = Ghost(self.answers@.push(Answer::Failed(cause)));
                Err(StorageError { cause })
            },
        }
    }

    /// Hands a query for tasks to the store, and puts it on record with the
    /// rows that came back.
    pub(crate) fn ask(&mut self, query: &SqlStatement) -> (res: Result<Vec<TaskRow>, StorageError>)
        requires
            binds_every_parameter(query@),
        ensures
            final(self).location() == old(self).location(),
            final(self).issued() == old(self).issued().push(query@),
            res matches Ok(rows) ==> final(self).answers() == old(self).answers().push(
                Answer::Rows(rows_view(rows@)),
            ),
            res matches Err(error) ==> final(self).answers() == old(self).answers().push(
                Answer::failure(error),
            ),
    {
        self.issued = Ghost(self.issued@.push(query@));
        match query_columns(&self.conn, query.text.as_str(), &query.params) {
            Ok(found) => {
                let rows = rows_from_columns(found);
                self.answers = Ghost(self.answers@.push(Answer::Rows(rows_view(rows@))));
                Ok(rows)
            },
            Err(cause) => {
                self.answers = Ghost(self.answers@.push(Answer::Failed(cause)));
                Err(StorageError { cause })
            },
        }
    }

    /// Hands a query for texts to the store, and puts it on record with the
    /// texts that came back.
    pub(crate) fn ask_for_texts(&mut self, query: &SqlStatement) -> (res: Result<
        Vec<String>,
        StorageError,
    >)
        requires
            binds_every_parameter(query@),
        ensures
            final(self).location() == old(self).location(),
            final(self).issued() == old(self).issued().push(query@),
            res matches Ok(texts) ==> final(self).answers() == old(self).answers().push(
                Answer::Texts(strings_view(texts@)),
            ),
            res matches Err(error) ==> final(self).answers() == old(self).answers().push(
                Answer::failure(error),
            ),
    {
        self.issued = Ghost(self.issued@.push(query@));
        match query_texts(&self.conn, query.text.as_str(), &query.params) {
            Ok(texts) => {
                self.answers = Ghost(self.answers@.push(Answer::Texts(strings_view(texts@))));
                Ok(texts)
            },
            Err(cause) => {
                self.answers = Ghost(self.answers@.push(Answer::Failed(cause)));
                Err(StorageError { cause })
            },
        }
    }
}

} // verus!

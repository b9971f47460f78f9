//! The list operations that callers use, over one store.

use vstd::prelude::*;
use vstd::string::StrSliceExecFns;

use crate::database::{
    inserted, read_from_first_row, read_from_rows, schema_defined, status_set, Database,
    StorageError, TaskFilter, TaskFilterView, TaskStatus,
};
use crate::statement::SqlStatementView;
use crate::store::{strings_view, Answer};
use crate::task::{task_view, tasks_view, Task, TaskView};
use crate::time::{representable, Instant, Timestamp};

verus! {

/// The tasks among `tasks` that are overdue at `now`, in their order.
pub open spec fn overdue_among(tasks: Seq<TaskView>, now: Instant) -> Seq<TaskView> {
    tasks.filter(|task: TaskView| task.overdue_at(now))
}

/// Keeps the tasks that are overdue at `now`, in their order.
pub fn select_overdue(tasks: Vec<Task>, now: &Timestamp) -> (overdue: Vec<Task>)
    ensures
        tasks_view(overdue@) == overdue_among(tasks_view(tasks@), now@),
{
    let ghost all = tasks@;
    let ghost is_overdue = |task: TaskView| task.overdue_at(now@);
    let mut overdue: Vec<Task> = Vec::new();
    proof {
        reveal(Seq::filter);
    }
    for task in it: tasks
        invariant
            it.seq() == all,
            is_overdue == |task: TaskView| task.overdue_at(now@),
            tasks_view(overdue@) == tasks_view(all.take(it.index() as int)).filter(is_overdue),
    {
        proof {
            reveal(Seq::filter);
            assert(tasks_view(all.take(it.index() + 1)).drop_last() =~= tasks_view(
                all.take(it.index() as int),
            ));
        }
        if task.is_overdue_at(now) {
            overdue.push(task);
        }
    }
    proof {
        assert(all.take(all.len() as int) =~= all);
    }
    overdue
}

/// Which tasks a caller asks to see.
#[derive(Clone, Debug, PartialEq, Eq)]
pub enum Listing {
    All,
    Todo,
    Done,
    Tagged(String),
}

/// The mathematical value of a [`Listing`].
pub ghost enum ListingView {
    All,
    Todo,
    Done,
    Tagged(Seq<char>),
}

impl View for Listing {
    type V = ListingView;

    open spec fn view(&self) -> ListingView {
        match self {
            Listing::All => ListingView::All,
            Listing::Todo => ListingView::Todo,
            Listing::Done => ListingView::Done,
            Listing::Tagged(tag) => ListingView::Tagged(tag@),
        }
    }
}

/// The value of an optional listing.
pub open spec fn listing_view(listing: Option<Listing>) -> Option<ListingView> {
    match listing {
        Some(l) => Some(l@),
        None => None,
    }
}

impl ListingView {
    /// The listing that a word names: `all`, `todo`, `done`, or `#` and a tag,
    /// which may be empty. Any other word names none.
    pub open spec fn named(word: Seq<char>) -> Option<ListingView> {
        if word == "todo"@ {
            Some(ListingView::Todo)
        } else if word == "done"@ {
            Some(ListingView::Done)
        } else if word == "all"@ {
            Some(ListingView::All)
        } else if word.len() > 0 && word[0] == '#' {
            Some(ListingView::Tagged(word.subrange(1, word.len() as int)))
        } else {
            None
        }
    }

    /// The listing that a word names where only `todo` and `done` are told
    /// apart: any other word names all tasks.
    pub open spec fn named_or_all(word: Seq<char>) -> ListingView {
        if word == "todo"@ {
            ListingView::Todo
        } else if word == "done"@ {
            ListingView::Done
        } else {
            ListingView::All
        }
    }

    /// The filter that the listing stands for.
    pub open spec fn filter(self) -> TaskFilterView {
        match self {
            ListingView::All => TaskFilterView::all(),
            ListingView::Todo => TaskFilterView::in_state(TaskStatus::Todo),
            ListingView::Done => TaskFilterView::in_state(TaskStatus::Done),
            ListingView::Tagged(tag) => TaskFilterView::tagged(tag),
        }
    }
}

/// Whether two texts hold the same characters.
fn same_text(left: &str, right: &str) -> (same: bool)
    ensures
        same == (left@ == right@),
{
    left.to_owned() == right.to_owned()
}

impl Listing {
    /// The listing that a word names, or `None` where it names none.
    pub fn parse(word: &str) -> (listing: Option<Listing>)
        ensures
            listing_view(listing) == ListingView::named(word@),
    {
        if same_text(word, "todo") {
            Some(Listing::Todo)
        } else if same_text(word, "done") {
            Some(Listing::Done)
        } else if same_text(word, "all") {
            Some(Listing::All)
        } else {
            let length = word.unicode_len();
            if length > 0 && word.get_char(0) == '#' {
                Some(Listing::Tagged(word.substring_char(1, length).to_owned()))
            } else {
                None
            }
        }
    }

    /// The listing that a word names where only `todo` and `done` are told
    /// apart.
    pub fn parse_or_all(word: &str) -> (listing: Listing)
        ensures
            listing@ == ListingView::named_or_all(word@),
    {
        if same_text(word, "todo") {
            Listing::Todo
        } else if same_text(word, "done") {
            Listing::Done
        } else {
            Listing::All
        }
    }
}

/// The task list: the operations that callers use, bound to one store.
pub struct TaskList {
    db: Database,
}

impl TaskList {
    /// The statements that were handed to the store through this list, queries
    /// and changes alike, oldest first.
    pub closed spec fn issued(&self) -> Seq<SqlStatementView> {
        self.db.issued()
    }

    /// What the store did with each of the statements on record, in their
    /// order.
    pub closed spec fn answers(&self) -> Seq<Answer> {
        self.db.answers()
    }

    /// The path of the file that the list keeps its tasks in, or `None` for a
    /// list in memory.
    pub closed spec fn location(&self) -> Option<Seq<char>> {
        self.db.location()
    }

    /// The list over the database file at `db_path`, which is created where
    /// there is none.
    pub fn new(db_path: &str) -> (res: Result<TaskList, StorageError>)
        ensures
            res matches Ok(list) ==> {
                &&& list.location() == Some(db_path@)
                &&& list.issued() == SqlStatementView::schema()
                &&& list.answers() == schema_defined()
            },
    {
        match Database::new(db_path) {
            Ok(db) => Ok(TaskList { db }),
            Err(error) => Err(error),
        }
    }

    /// The list over a database in memory.
    pub fn new_in_memory() -> (res: Result<TaskList, StorageError>)
        ensures
            res matches Ok(list) ==> {
                &&& list.location() is None
                &&& list.issued() == SqlStatementView::schema()
                &&& list.answers() == schema_defined()
            },
    {
        match Database::new_in_memory() {
            Ok(db) => Ok(TaskList { db }),
            Err(error) => Err(error),
        }
    }

    /// Stores `task` and returns the id that the store gave it.
    pub fn add(&mut self, task: Task) -> (res: Result<i64, StorageError>)
        ensures
            final(self).location() == old(self).location(),
            inserted(old(self).issued(), final(self).issued(), task@),
            final(self).answers() == old(self).answers().push(Answer::to_insertion(res)),
    {
        self.db.insert_task(&task)
    }

    /// Every task, most recently created first.
    pub fn all(&mut self) -> (res: Result<Vec<Task>, StorageError>)
        ensures
            final(self).location() == old(self).location(),
            final(self).issued() == old(self).issued().push(
                SqlStatementView::fetch(TaskFilterView::all()),
            ),
            res matches Ok(tasks) ==> read_from_rows(
                old(self).answers(),
                final(self).answers(),
                tasks_view(tasks@),
            ),
            res matches Err(error) ==> final(self).answers() == old(self).answers().push(
                Answer::failure(error),
            ),
    {
        self.db.fetch_tasks(TaskFilter { status: None, tag: None, parent_id: None })
    }

    /// The tasks that are not done.
    pub fn get_todo(&mut self) -> (res: Result<Vec<Task>, StorageError>)
        ensures
            final(self).location() == old(self).location(),
            final(self).issued() == old(self).issued().push(
                SqlStatementView::fetch(TaskFilterView::in_state(TaskStatus::Todo)),
            ),
            res matches Ok(tasks) ==> read_from_rows(
                old(self).answers(),
                final(self).answers(),
                tasks_view(tasks@),
            ),
            res matches Err(error) ==> final(self).answers() == old(self).answers().push(
                Answer::failure(error),
            ),
    {
        self.db.fetch_tasks(
            TaskFilter { status: Some(TaskStatus::Todo), tag: None, parent_id: None },
        )
    }

    /// The tasks that are done.
    pub fn get_completed(&mut self) -> (res: Result<Vec<Task>, StorageError>)
        ensures
            final(self).location() == old(self).location(),
            final(self).issued() == old(self).issued().push(
                SqlStatementView::fetch(TaskFilterView::in_state(TaskStatus::Done)),
            ),
            res matches Ok(tasks) ==> read_from_rows(
                old(self).answers(),
                final(self).answers(),
                tasks_view(tasks@),
            ),
            res matches Err(error) ==> final(self).answers() == old(self).answers().push(
                Answer::failure(error),
            ),
    {
        self.db.fetch_tasks(
            TaskFilter { status: Some(TaskStatus::Done), tag: None, parent_id: None },
        )
    }

    /// The tasks with exactly this tag.
    pub fn get_by_tag(&mut self, tag: &str) -> (res: Result<Vec<Task>, StorageError>)
        ensures
            final(self).location() == old(self).location(),
            final(self).issued() == old(self).issued().push(
                SqlStatementView::fetch(TaskFilterView::tagged(tag@)),
            ),
            res matches Ok(tasks) ==> read_from_rows(
                old(self).answers(),
                final(self).answers(),
                tasks_view(tasks@),
            ),
            res matches Err(error) ==> final(self).answers() == old(self).answers().push(
                Answer::failure(error),
            ),
    {
        self.db.fetch_tasks(TaskFilter { status: None, tag: Some(tag.to_owned()), parent_id: None })
    }

    /// The subtasks of the task with this id.
    pub fn get_subtasks(&mut self, parent_id: i64) -> (res: Result<Vec<Task>, StorageError>)
        ensures
            final(self).location() == old(self).location(),
            final(self).issued() == old(self).issued().push(
                SqlStatementView::fetch(TaskFilterView::subtasks_of(parent_id)),
            ),
            res matches Ok(tasks) ==> read_from_rows(
                old(self).answers(),
                final(self).answers(),
                tasks_view(tasks@),
            ),
            res matches Err(error) ==> final(self).answers() == old(self).answers().push(
                Answer::failure(error),
            ),
    {
        self.db.fetch_tasks(TaskFilter { status: None, tag: None, parent_id: Some(parent_id) })
    }

    /// The tasks that a listing asks for.
    pub fn list(&mut self, listing: &Listing) -> (res: Result<Vec<Task>, StorageError>)
        ensures
            final(self).location() == old(self).location(),
            final(self).issued() == old(self).issued().push(
                SqlStatementView::fetch(listing@.filter()),
            ),
            res matches Ok(tasks) ==> read_from_rows(
                old(self).answers(),
                final(self).answers(),
                tasks_view(tasks@),
            ),
            res matches Err(error) ==> final(self).answers() == old(self).answers().push(
                Answer::failure(error),
            ),
    {
        match listing {
            Listing::All => self.all(),
            Listing::Todo => self.get_todo(),
            Listing::Done => self.get_completed(),
            Listing::Tagged(tag) => self.get_by_tag(tag.as_str()),
        }
    }

    /// The task with this id, or `None` where there is none.
    pub fn get_by_id(&mut self, id: i64) -> (res: Result<Option<Task>, StorageError>)
        ensures
            final(self).location() == old(self).location(),
            final(self).issued() == old(self).issued().push(SqlStatementView::fetch_by_id(id)),
            res matches Ok(found) ==> read_from_first_row(
                old(self).answers(),
                final(self).answers(),
                task_view(found),
            ),
            res matches Err(error) ==> final(self).answers() == old(self).answers().push(
                Answer::failure(error),
            ),
    {
        self.db.get_task_by_id(id)
    }

    /// Marks the task with this id as done.
    pub fn mark_done(&mut self, id: i64) -> (res: Result<(), StorageError>)
        ensures
            final(self).location() == old(self).location(),
            status_set(old(self).issued(), final(self).issued(), id, true),
            final(self).answers() == old(self).answers().push(Answer::to_change(res)),
    {
        self.db.update_task_status(id, true)
    }

    /// Marks the task with this id as not done.
    pub fn mark_undone(&mut self, id: i64) -> (res: Result<(), StorageError>)
        ensures
            final(self).location() == old(self).location(),
            status_set(old(self).issued(), final(self).issued(), id, false),
            final(self).answers() == old(self).answers().push(Answer::to_change(res)),
    {
        self.db.update_task_status(id, false)
    }

    /// Deletes the task with this id and its subtasks.
    pub fn delete(&mut self, id: i64) -> (res: Result<(), StorageError>)
        ensures
            final(self).location() == old(self).location(),
            res is Ok ==> {
                &&& final(self).issued() == old(self).issued().push(
                    SqlStatementView::delete_subtasks(id),
                ).push(SqlStatementView::delete_task(id))
                &&& final(self).answers() == old(self).answers().push(Answer::Done).push(
                    Answer::Done,
                )
            },
            res matches Err(error) ==> {
                ||| {
                    &&& final(self).issued() == old(self).issued().push(
                        SqlStatementView::delete_subtasks(id),
                    )
                    &&& final(self).answers() == old(self).answers().push(Answer::failure(error))
                }
                ||| {
                    &&& final(self).issued() == old(self).issued().push(
                        SqlStatementView::delete_subtasks(id),
                    ).push(SqlStatementView::delete_task(id))
                    &&& final(self).answers() == old(self).answers().push(Answer::Done).push(
                        Answer::failure(error),
                    )
                }
            },
    {
        self.db.delete_task(id)
    }

    /// Deletes every task.
    pub fn clear_all(&mut self) -> (res: Result<(), StorageError>)
        ensures
            final(self).location() == old(self).location(),
            final(self).issued() == old(self).issued().push(SqlStatementView::delete_all()),
            final(self).answers() == old(self).answers().push(Answer::to_change(res)),
    {
        self.db.clear_all_tasks()
    }

    /// The tags in use.
    pub fn get_all_tags(&mut self) -> (res: Result<Vec<String>, StorageError>)
        ensures
            final(self).location() == old(self).location(),
            final(self).issued() == old(self).issued().push(SqlStatementView::fetch_tags()),
            res matches Ok(tags) ==> final(self).answers() == old(self).answers().push(
                Answer::Texts(strings_view(tags@)),
            ),
            res matches Err(error) ==> final(self).answers() == old(self).answers().push(
                Answer::failure(error),
            ),
    {
        self.db.fetch_all_tags()
    }

    /// The tasks that are not done and whose due date has passed.
    pub fn get_overdue(&mut self) -> (res: Result<Vec<Task>, StorageError>)
        ensures
            final(self).location() == old(self).location(),
            final(self).issued() == old(self).issued().push(
                SqlStatementView::fetch(TaskFilterView::in_state(TaskStatus::Todo)),
            ),
            res matches Ok(overdue) ==> exists|fetched: Seq<TaskView>, now: Instant|
                read_from_rows(old(self).answers(), final(self).answers(), fetched)
                    && representable(now.secs, now.nanos) && tasks_view(overdue@)
                    == #[trigger] overdue_among(fetched, now),
            res matches Err(error) ==> final(self).answers() == old(self).answers().push(
                Answer::failure(error),
            ),
    {
        match self.get_todo() {
            Ok(tasks) => {
                let now = Timestamp::now();
                Ok(select_overdue(tasks, &now))
            },
            Err(error) => Err(error),
        }
    }
}

} // verus!

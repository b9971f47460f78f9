//! The parameters in the text of a statement, and the law that every statement
//! of the library binds exactly one value to each of them.

use vstd::prelude::*;

use crate::database::{TaskFilterView, TaskStatus};
use crate::statement::{
    joined, SqlStatementView, AND, CREATE_DONE_INDEX, CREATE_TABLE, CREATE_TAG_INDEX, DELETE_ALL,
    DELETE_SUBTASKS, DELETE_TASK, ID_IS, INSERT_TASK, IS_DONE, IS_TODO, NEWEST_FIRST, PARENT_IS,
    SELECT_TAGS, SELECT_TASKS, TAG_IS, UPDATE_STATUS, WHERE,
};
use crate::task::TaskView;

verus! {

/// The number of question marks among the first `end` characters of `text`.
pub open spec fn placeholders_before(text: Seq<char>, end: nat) -> nat
    decreases end,
{
    if end == 0 {
        0
    } else {
        placeholders_before(text, (end - 1) as nat) + if text[end - 1] == '?' {
            1nat
        } else {
            0nat
        }
    }
}

/// The number of parameters of a statement with this text: of its question
/// marks, each of which stands for one value. No text of the library holds a
/// question mark inside a quoted string.
pub open spec fn placeholders(text: Seq<char>) -> nat {
    placeholders_before(text, text.len())
}

/// The number of parameters of all of `texts` together.
pub open spec fn placeholders_of_all(texts: Seq<Seq<char>>) -> nat
    decreases texts.len(),
{
    if texts.len() == 0 {
        0
    } else {
        placeholders_of_all(texts.drop_last()) + placeholders(texts.last())
    }
}

/// Whether a statement binds exactly one value to each parameter of its text.
pub open spec fn binds_every_parameter(statement: SqlStatementView) -> bool {
    placeholders(statement.text) == statement.params.len()
}

proof fn lemma_placeholders_of_a_prefix(left: Seq<char>, right: Seq<char>, end: nat)
    requires
        end <= left.len(),
    ensures
        placeholders_before(left + right, end) == placeholders_before(left, end),
    decreases end,
{
    if end > 0 {
        lemma_placeholders_of_a_prefix(left, right, (end - 1) as nat);
        assert((left + right)[end - 1] == left[end - 1]);
    }
}

proof fn lemma_placeholders_past_a_prefix(left: Seq<char>, right: Seq<char>, end: nat)
    requires
        end <= right.len(),
    ensures
        placeholders_before(left + right, left.len() + end) == placeholders(left)
            + placeholders_before(right, end),
    decreases end,
{
    if end == 0 {
        lemma_placeholders_of_a_prefix(left, right, left.len());
    } else {
        lemma_placeholders_past_a_prefix(left, right, (end - 1) as nat);
        assert((left + right)[left.len() + end - 1] == right[end - 1]);
    }
}

/// A text made of two has the parameters of both.
pub proof fn lemma_placeholders_add(left: Seq<char>, right: Seq<char>)
    ensures
        placeholders(left + right) == placeholders(left) + placeholders(right),
{
    lemma_placeholders_past_a_prefix(left, right, right.len());
}

/// Texts joined by a separator without parameters have the parameters of all
/// of them together.
pub proof fn lemma_placeholders_of_joined(texts: Seq<Seq<char>>, separator: Seq<char>)
    requires
        placeholders(separator) == 0,
    ensures
        placeholders(joined(texts, separator)) == placeholders_of_all(texts),
    decreases texts.len(),
{
    if texts.len() == 0 {
    } else if texts.len() == 1 {
        assert(texts.drop_last().len() == 0);
        assert(placeholders_of_all(texts.drop_last()) == 0);
    } else {
        lemma_placeholders_of_joined(texts.drop_last(), separator);
        lemma_placeholders_add(joined(texts.drop_last(), separator), separator);
        lemma_placeholders_add(joined(texts.drop_last(), separator) + separator, texts.last());
    }
}

proof fn lemma_placeholders_of_all_add(left: Seq<Seq<char>>, right: Seq<Seq<char>>)
    ensures
        placeholders_of_all(left + right) == placeholders_of_all(left) + placeholders_of_all(right),
    decreases right.len(),
{
    if right.len() == 0 {
        assert(left + right =~= left);
    } else {
        lemma_placeholders_of_all_add(left, right.drop_last());
        assert((left + right).drop_last() =~= left + right.drop_last());
        assert((left + right).last() == right.last());
    }
}

proof fn lemma_placeholders_of_one(text: Seq<char>)
    ensures
        placeholders_of_all(seq![text]) == placeholders(text),
{
    assert(seq![text].drop_last().len() == 0);
    assert(placeholders_of_all(seq![text].drop_last()) == 0);
    assert(seq![text].last() == text);
}

proof fn lemma_create_table_text()
    ensures
        placeholders(CREATE_TABLE@) == 0,
{
    reveal_strlit("CREATE TABLE IF NOT EXISTS tasks (id INTEGER PRIMARY KEY AUTOINCREMENT, title TEXT NOT NULL, details TEXT, done INTEGER NOT NULL DEFAULT 0, due_date TEXT, is_recurring INTEGER NOT NULL DEFAULT 0, estimated_duration INTEGER, last_duration INTEGER, tag TEXT, parent_id INTEGER, created_at TEXT NOT NULL, updated_at TEXT NOT NULL, FOREIGN KEY(parent_id) REFERENCES tasks(id))");
    let text = CREATE_TABLE@;
    reveal_with_fuel(placeholders_before, 21);
    assert(placeholders_before(text, 20) == 0);
    assert(placeholders_before(text, 40) == 0);
    assert(placeholders_before(text, 60) == 0);
    assert(placeholders_before(text, 80) == 0);
    assert(placeholders_before(text, 100) == 0);
    assert(placeholders_before(text, 120) == 0);
    assert(placeholders_before(text, 140) == 0);
    assert(placeholders_before(text, 160) == 0);
    assert(placeholders_before(text, 180) == 0);
    assert(placeholders_before(text, 200) == 0);
    assert(placeholders_before(text, 220) == 0);
    assert(placeholders_before(text, 240) == 0);
    assert(placeholders_before(text, 260) == 0);
    assert(placeholders_before(text, 280) == 0);
    assert(placeholders_before(text, 300) == 0);
    assert(placeholders_before(text, 320) == 0);
    assert(placeholders_before(text, 340) == 0);
    assert(placeholders_before(text, 360) == 0);
    assert(placeholders_before(text, 372) == 0);
}

proof fn lemma_create_done_index_text()
    ensures
        placeholders(CREATE_DONE_INDEX@) == 0,
{
    reveal_strlit("CREATE INDEX IF NOT EXISTS idx_tasks_done ON tasks(done)");
    let text = CREATE_DONE_INDEX@;
    reveal_with_fuel(placeholders_before, 21);
    assert(placeholders_before(text, 20) == 0);
    assert(placeholders_before(text, 40) == 0);
    assert(placeholders_before(text, 56) == 0);
}

proof fn lemma_create_tag_index_text()
    ensures
        placeholders(CREATE_TAG_INDEX@) == 0,
{
    reveal_strlit("CREATE INDEX IF NOT EXISTS idx_tasks_tag ON tasks(tag)");
    let text = CREATE_TAG_INDEX@;
    reveal_with_fuel(placeholders_before, 21);
    assert(placeholders_before(text, 20) == 0);
    assert(placeholders_before(text, 40) == 0);
    assert(placeholders_before(text, 54) == 0);
}

proof fn lemma_insert_task_text()
    ensures
        placeholders(INSERT_TASK@) == 11,
{
    reveal_strlit("INSERT INTO tasks (title, details, done, due_date, is_recurring, estimated_duration, last_duration, tag, parent_id, created_at, updated_at) VALUES (?1, ?2, ?3, ?4, ?5, ?6, ?7, ?8, ?9, ?10, ?11)");
    let text = INSERT_TASK@;
    reveal_with_fuel(placeholders_before, 21);
    assert(placeholders_before(text, 20) == 0);
    assert(placeholders_before(text, 40) == 0);
    assert(placeholders_before(text, 60) == 0);
    assert(placeholders_before(text, 80) == 0);
    assert(placeholders_before(text, 100) == 0);
    assert(placeholders_before(text, 120) == 0);
    assert(placeholders_before(text, 140) == 0);
    assert(placeholders_before(text, 160) == 3);
    assert(placeholders_before(text, 180) == 8);
    assert(placeholders_before(text, 193) == 11);
}

proof fn lemma_select_tasks_text()
    ensures
        placeholders(SELECT_TASKS@) == 0,
{
    reveal_strlit("SELECT id, title, details, done, due_date, is_recurring, estimated_duration, last_duration, tag, parent_id, created_at, updated_at FROM tasks");
    let text = SELECT_TASKS@;
    reveal_with_fuel(placeholders_before, 21);
    assert(placeholders_before(text, 20) == 0);
    assert(placeholders_before(text, 40) == 0);
    assert(placeholders_before(text, 60) == 0);
    assert(placeholders_before(text, 80) == 0);
    assert(placeholders_before(text, 100) == 0);
    assert(placeholders_before(text, 120) == 0);
    assert(placeholders_before(text, 140) == 0);
    assert(placeholders_before(text, 141) == 0);
}

proof fn lemma_select_tags_text()
    ensures
        placeholders(SELECT_TAGS@) == 0,
{
    reveal_strlit("SELECT DISTINCT tag FROM tasks WHERE tag IS NOT NULL AND tag != '' ORDER BY tag");
    let text = SELECT_TAGS@;
    reveal_with_fuel(placeholders_before, 21);
    assert(placeholders_before(text, 20) == 0);
    assert(placeholders_before(text, 40) == 0);
    assert(placeholders_before(text, 60) == 0);
    assert(placeholders_before(text, 79) == 0);
}

proof fn lemma_update_status_text()
    ensures
        placeholders(UPDATE_STATUS@) == 3,
{
    reveal_strlit("UPDATE tasks SET done = ?1, updated_at = ?2 WHERE id = ?3");
    let text = UPDATE_STATUS@;
    reveal_with_fuel(placeholders_before, 21);
    assert(placeholders_before(text, 20) == 0);
    assert(placeholders_before(text, 40) == 1);
    assert(placeholders_before(text, 57) == 3);
}

proof fn lemma_delete_subtasks_text()
    ensures
        placeholders(DELETE_SUBTASKS@) == 1,
{
    reveal_strlit("DELETE FROM tasks WHERE parent_id = ?1");
    let text = DELETE_SUBTASKS@;
    reveal_with_fuel(placeholders_before, 21);
    assert(placeholders_before(text, 20) == 0);
    assert(placeholders_before(text, 38) == 1);
}

proof fn lemma_delete_task_text()
    ensures
        placeholders(DELETE_TASK@) == 1,
{
    reveal_strlit("DELETE FROM tasks WHERE id = ?1");
    let text = DELETE_TASK@;
    reveal_with_fuel(placeholders_before, 21);
    assert(placeholders_before(text, 20) == 0);
    assert(placeholders_before(text, 31) == 1);
}

proof fn lemma_delete_all_text()
    ensures
        placeholders(DELETE_ALL@) == 0,
{
    reveal_strlit("DELETE FROM tasks");
    let text = DELETE_ALL@;
    reveal_with_fuel(placeholders_before, 21);
    assert(placeholders_before(text, 17) == 0);
}

proof fn lemma_where_text()
    ensures
        placeholders(WHERE@) == 0,
{
    reveal_strlit(" WHERE ");
    let text = WHERE@;
    reveal_with_fuel(placeholders_before, 21);
    assert(placeholders_before(text, 7) == 0);
}

proof fn lemma_and_text()
    ensures
        placeholders(AND@) == 0,
{
    reveal_strlit(" AND ");
    let text = AND@;
    reveal_with_fuel(placeholders_before, 21);
    assert(placeholders_before(text, 5) == 0);
}

proof fn lemma_is_done_text()
    ensures
        placeholders(IS_DONE@) == 0,
{
    reveal_strlit("done = 1");
    let text = IS_DONE@;
    reveal_with_fuel(placeholders_before, 21);
    assert(placeholders_before(text, 8) == 0);
}

proof fn lemma_is_todo_text()
    ensures
        placeholders(IS_TODO@) == 0,
{
    reveal_strlit("done = 0");
    let text = IS_TODO@;
    reveal_with_fuel(placeholders_before, 21);
    assert(placeholders_before(text, 8) == 0);
}

proof fn lemma_tag_is_text()
    ensures
        placeholders(TAG_IS@) == 1,
{
    reveal_strlit("tag = ?");
    let text = TAG_IS@;
    reveal_with_fuel(placeholders_before, 21);
    assert(placeholders_before(text, 7) == 1);
}

proof fn lemma_parent_is_text()
    ensures
        placeholders(PARENT_IS@) == 1,
{
    reveal_strlit("parent_id = ?");
    let text = PARENT_IS@;
    reveal_with_fuel(placeholders_before, 21);
    assert(placeholders_before(text, 13) == 1);
}

proof fn lemma_id_is_text()
    ensures
        placeholders(ID_IS@) == 1,
{
    reveal_strlit("id = ?1");
    let text = ID_IS@;
    reveal_with_fuel(placeholders_before, 21);
    assert(placeholders_before(text, 7) == 1);
}

proof fn lemma_newest_first_text()
    ensures
        placeholders(NEWEST_FIRST@) == 0,
{
    reveal_strlit(" ORDER BY created_at DESC");
    let text = NEWEST_FIRST@;
    reveal_with_fuel(placeholders_before, 21);
    assert(placeholders_before(text, 20) == 0);
    assert(placeholders_before(text, 25) == 0);
}

/// The statements that define the schema have no parameters and bind no value.
pub proof fn lemma_schema_binds_every_parameter()
    ensures
        forall|i: int|
            0 <= i < SqlStatementView::schema().len() ==> binds_every_parameter(
                #[trigger] SqlStatementView::schema()[i],
            ),
{
    lemma_create_table_text();
    lemma_create_done_index_text();
    lemma_create_tag_index_text();
}

/// An insertion binds a value to each of its eleven parameters, whatever the
/// task.
pub proof fn lemma_insertion_binds_every_parameter(task: TaskView, stamp: Seq<char>)
    ensures
        binds_every_parameter(SqlStatementView::insert(task, stamp)),
{
    lemma_insert_task_text();
}

/// A query for tasks binds a value to each of its parameters, whatever its
/// filter: one for the tag and one for the parent, where the filter has them.
pub proof fn lemma_query_binds_every_parameter(filter: TaskFilterView)
    ensures
        binds_every_parameter(SqlStatementView::fetch(filter)),
{
    lemma_select_tasks_text();
    lemma_where_text();
    lemma_and_text();
    lemma_is_done_text();
    lemma_is_todo_text();
    lemma_tag_is_text();
    lemma_parent_is_text();
    lemma_newest_first_text();
    let on_status: Seq<Seq<char>> = match filter.status {
        Some(TaskStatus::Done) => seq![IS_DONE@],
        Some(TaskStatus::Todo) => seq![IS_TODO@],
        None => Seq::empty(),
    };
    let on_tag: Seq<Seq<char>> = if filter.tag is Some {
        seq![TAG_IS@]
    } else {
        Seq::empty()
    };
    let on_parent: Seq<Seq<char>> = if filter.parent_id is Some {
        seq![PARENT_IS@]
    } else {
        Seq::empty()
    };
    let conditions = SqlStatementView::conditions(filter);
    assert(conditions == on_status + on_tag + on_parent);
    lemma_placeholders_of_one(IS_DONE@);
    lemma_placeholders_of_one(IS_TODO@);
    lemma_placeholders_of_one(TAG_IS@);
    lemma_placeholders_of_one(PARENT_IS@);
    assert(placeholders_of_all(Seq::<Seq<char>>::empty()) == 0);
    lemma_placeholders_of_all_add(on_status, on_tag);
    lemma_placeholders_of_all_add(on_status + on_tag, on_parent);
    lemma_placeholders_of_joined(conditions, AND@);
    let clause = SqlStatementView::where_clause(conditions);
    if conditions.len() > 0 {
        lemma_placeholders_add(WHERE@, joined(conditions, AND@));
    } else {
        assert(placeholders(clause) == 0);
    }
    assert(placeholders(clause) == SqlStatementView::condition_values(filter).len());
    lemma_placeholders_add(SELECT_TASKS@, clause);
    lemma_placeholders_add(SELECT_TASKS@ + clause, NEWEST_FIRST@);
}

/// The query for one task binds the id to its one parameter.
pub proof fn lemma_query_by_id_binds_every_parameter(id: i64)
    ensures
        binds_every_parameter(SqlStatementView::fetch_by_id(id)),
{
    lemma_select_tasks_text();
    lemma_where_text();
    lemma_id_is_text();
    lemma_placeholders_add(SELECT_TASKS@, WHERE@);
    lemma_placeholders_add(SELECT_TASKS@ + WHERE@, ID_IS@);
}

/// The query for the tags has no parameters and binds no value.
pub proof fn lemma_query_for_tags_binds_every_parameter()
    ensures
        binds_every_parameter(SqlStatementView::fetch_tags()),
{
    lemma_select_tags_text();
}

/// An update of the completion flag binds a value to each of its three
/// parameters.
pub proof fn lemma_update_binds_every_parameter(id: i64, done: bool, stamp: Seq<char>)
    ensures
        binds_every_parameter(SqlStatementView::update_status(id, done, stamp)),
{
    lemma_update_status_text();
}

/// The deletions of a task and of its subtasks bind the id to their one
/// parameter.
pub proof fn lemma_deletions_bind_every_parameter(id: i64)
    ensures
        binds_every_parameter(SqlStatementView::delete_subtasks(id)),
        binds_every_parameter(SqlStatementView::delete_task(id)),
{
    lemma_delete_subtasks_text();
    lemma_delete_task_text();
}

/// The deletion of every task has no parameters and binds no value.
pub proof fn lemma_deletion_of_all_binds_every_parameter()
    ensures
        binds_every_parameter(SqlStatementView::delete_all()),
{
    lemma_delete_all_text();
}

} // verus!

//! Laws that relate the operations of the library to each other.

use vstd::prelude::*;

use crate::database::{status_set, TaskFilterView, TaskStatus};
use crate::row::{decoded_rows, instant_or, TaskRowView};
use crate::statement::{
    joined, SqlStatementView, SqlValueView, AND, IS_DONE, IS_TODO, NEWEST_FIRST, PARENT_IS,
    SELECT_TASKS, TAG_IS, UPDATE_STATUS, WHERE,
};
use crate::task::TaskView;
use crate::task_list::overdue_among;
use crate::time::{rfc3339_text, Instant};

verus! {

/// Instants are in a strict total order: none precedes itself, of two
/// different ones exactly one precedes the other, and what precedes an instant
/// precedes all that it precedes. So the later of two instants precedes
/// neither, and a task that was touched is never updated before it was created.
pub proof fn lemma_instants_are_in_order(a: Instant, b: Instant, c: Instant)
    ensures
        !a.precedes(a),
        a.precedes(b) ==> !b.precedes(a),
        a != b ==> a.precedes(b) || b.precedes(a),
        a.precedes(b) && b.precedes(c) ==> a.precedes(c),
        !a.later_of(b).precedes(a) && !a.later_of(b).precedes(b),
        a.later_of(b) == a || a.later_of(b) == b,
{
}

/// The due date of a task as it is read back from its stored text: the
/// instant that the text denotes, or `fallback` where the text cannot be read.
pub open spec fn reread(due_date: Option<Instant>, fallback: Instant) -> Option<Instant> {
    match due_date {
        Some(due) => Some(instant_or(rfc3339_text(due.secs, due.nanos), fallback)),
        None => None,
    }
}

/// An insertion hands the store exactly the columns of the row that stands for
/// the task: whatever id the store gives that row, its other columns are the
/// parameters of the insertion, in their order.
pub proof fn lemma_insertion_hands_over_the_row(task: TaskView, stamp: Seq<char>, id: i64)
    ensures
        SqlStatementView::insert(task, stamp).params == TaskRowView::of_task(
            id,
            task,
            stamp,
        ).values(),
{
}

/// A task comes back from its row as it went in, but for what the store
/// assigns: the id is the row's; the creation and update time are both the
/// instant of the stamp, or the fallback where the stamp cannot be read; the
/// due date is what its stored text reads as, or the fallback where that text
/// cannot be read. In particular a task that was not done comes back not done,
/// one without a due date comes back without one, and what comes back is well
/// formed.
pub proof fn lemma_row_reads_back_as_the_task(
    task: TaskView,
    stamp: Seq<char>,
    id: i64,
    fallback: Instant,
)
    ensures
        TaskRowView::of_task(id, task, stamp).decoded(fallback) == (TaskView {
            id: Some(id),
            due_date: reread(task.due_date, fallback),
            created_at: instant_or(stamp, fallback),
            updated_at: instant_or(stamp, fallback),
            ..task
        }),
        TaskRowView::of_task(id, task, stamp).decoded(fallback).well_formed(),
{
}

/// The condition on the completion state that a query carries.
pub open spec fn state_condition(status: TaskStatus) -> Seq<char> {
    match status {
        TaskStatus::Done => IS_DONE@,
        TaskStatus::Todo => IS_TODO@,
    }
}

/// A filter without fields asks for every row: its query has no conditions
/// and binds no value.
pub proof fn lemma_query_for_all()
    ensures
        SqlStatementView::fetch(TaskFilterView::all()) == SqlStatementView::plain(
            SELECT_TASKS@ + NEWEST_FIRST@,
        ),
{
}

/// A filter on the completion state alone asks for the rows whose flag is 1, for
/// the done ones, or 0, for the others, and binds no value.
pub proof fn lemma_query_for_state(status: TaskStatus)
    ensures
        SqlStatementView::fetch(TaskFilterView::in_state(status)) == SqlStatementView::plain(
            SELECT_TASKS@ + (WHERE@ + state_condition(status)) + NEWEST_FIRST@,
        ),
{
}

/// A filter on the tag alone asks for the rows whose tag is the one value that
/// it binds: the tag as it was given, character by character.
pub proof fn lemma_query_for_tag(tag: Seq<char>)
    ensures
        SqlStatementView::fetch(TaskFilterView::tagged(tag)) == (SqlStatementView {
            text: SELECT_TASKS@ + (WHERE@ + TAG_IS@) + NEWEST_FIRST@,
            params: seq![SqlValueView::Text(tag)],
        }),
{
}

/// A filter on the parent alone asks for the rows whose parent is the one id
/// that it binds.
pub proof fn lemma_query_for_subtasks(parent_id: i64)
    ensures
        SqlStatementView::fetch(TaskFilterView::subtasks_of(parent_id)) == (SqlStatementView {
            text: SELECT_TASKS@ + (WHERE@ + PARENT_IS@) + NEWEST_FIRST@,
            params: seq![SqlValueView::Integer(parent_id as int)],
        }),
{
}

/// A filter with every field asks for the rows that meet all three conditions,
/// and binds the tag and the parent in the order of their conditions.
pub proof fn lemma_query_for_all_fields(status: TaskStatus, tag: Seq<char>, parent_id: i64)
    ensures
        SqlStatementView::fetch(
            (TaskFilterView { status: Some(status), tag: Some(tag), parent_id: Some(parent_id) }),
        ) == (SqlStatementView {
            text: SELECT_TASKS@ + (WHERE@ + (state_condition(status) + AND@ + TAG_IS@ + AND@
                + PARENT_IS@)) + NEWEST_FIRST@,
            params: seq![SqlValueView::Text(tag), SqlValueView::Integer(parent_id as int)],
        }),
{
    let filter = TaskFilterView {
        status: Some(status),
        tag: Some(tag),
        parent_id: Some(parent_id),
    };
    reveal_with_fuel(joined, 3);
    assert(SqlStatementView::conditions(filter) =~= seq![
        state_condition(status),
        TAG_IS@,
        PARENT_IS@,
    ]);
    assert(SqlStatementView::fetch(filter).params =~= seq![
        SqlValueView::Text(tag),
        SqlValueView::Integer(parent_id as int),
    ]);
}

/// The text of a query depends on which fields its filter has and on the
/// completion state, never on a tag or an id: those reach the store as bound
/// values only, so that a tag is matched as it is written, whatever it holds.
pub proof fn lemma_values_never_enter_the_text(one: TaskFilterView, other: TaskFilterView)
    requires
        one.status == other.status,
        one.tag is Some <==> other.tag is Some,
        one.parent_id is Some <==> other.parent_id is Some,
    ensures
        SqlStatementView::fetch(one).text == SqlStatementView::fetch(other).text,
{
}

/// Every query for tasks asks for the most recently created first, whatever
/// its filter.
pub proof fn lemma_queries_ask_for_the_newest_first(filter: TaskFilterView)
    ensures
        NEWEST_FIRST@.is_suffix_of(SqlStatementView::fetch(filter).text),
{
}

/// Rows are read as tasks one by one: as many tasks as rows, each the reading
/// of the row in its place, so that the order of the rows is the order of the
/// tasks.
pub proof fn lemma_rows_keep_their_order(rows: Seq<TaskRowView>, fallback: Instant)
    ensures
        decoded_rows(rows, fallback).len() == rows.len(),
        forall|i: int|
            0 <= i < rows.len() ==> #[trigger] decoded_rows(rows, fallback)[i] == rows[i].decoded(
                fallback,
            ),
        forall|i: int|
            0 <= i < rows.len() ==> (#[trigger] decoded_rows(rows, fallback)[i]).id == Some(
                rows[i].id,
            ),
{
}

/// Setting the same completion flag of the same task twice hands the store the
/// same update twice, but for its stamp: two statements more on record, both
/// with the same text, the same flag and the same id.
pub proof fn lemma_setting_a_status_again_repeats_the_update(
    before: Seq<SqlStatementView>,
    between: Seq<SqlStatementView>,
    after: Seq<SqlStatementView>,
    id: i64,
    done: bool,
)
    requires
        status_set(before, between, id, done),
        status_set(between, after, id, done),
    ensures
        after.len() == before.len() + 2,
        after.subrange(0, before.len() as int) == before,
        forall|i: int|
            before.len() <= i < after.len() ==> {
                &&& (#[trigger] after[i]).text == UPDATE_STATUS@
                &&& after[i].params.len() == 3
                &&& after[i].params[0] == SqlValueView::flag(done)
                &&& after[i].params[2] == SqlValueView::Integer(id as int)
            },
{
}

/// A task is among the overdue ones exactly where it is among the tasks and is
/// overdue.
pub proof fn lemma_overdue_membership(tasks: Seq<TaskView>, now: Instant, task: TaskView)
    ensures
        overdue_among(tasks, now).contains(task) <==> tasks.contains(task) && task.overdue_at(now),
    decreases tasks.len(),
{
    reveal(Seq::filter);
    if tasks.len() > 0 {
        let rest = tasks.drop_last();
        let kept = overdue_among(rest, now);
        let all_kept = overdue_among(tasks, now);
        lemma_overdue_membership(rest, now, task);
        if tasks.contains(task) && task.overdue_at(now) {
            let i = choose|i: int| 0 <= i < tasks.len() && tasks[i] == task;
            if i < rest.len() {
                assert(rest[i] == task);
                let j = choose|j: int| 0 <= j < kept.len() && kept[j] == task;
                assert(all_kept[j] == task);
            } else {
                assert(all_kept.last() == task);
            }
        }
        if all_kept.contains(task) {
            let j = choose|j: int| 0 <= j < all_kept.len() && all_kept[j] == task;
            if j < kept.len() {
                assert(kept[j] == task);
                let i = choose|i: int| 0 <= i < rest.len() && rest[i] == task;
                assert(tasks[i] == task);
            } else {
                assert(tasks.last() == task);
            }
        }
    }
}

/// A task that is not done and whose due date lies before `now` is among the
/// overdue ones of every list that holds it; once it is marked as done it is
/// among the overdue ones of no list.
pub proof fn lemma_overdue_until_done(tasks: Seq<TaskView>, now: Instant, task: TaskView)
    requires
        !task.done,
        task.due_date matches Some(due) && due.precedes(now),
    ensures
        tasks.contains(task) ==> overdue_among(tasks, now).contains(task),
        !overdue_among(tasks, now).contains(task.with_done(true)),
{
    lemma_overdue_membership(tasks, now, task);
    lemma_overdue_membership(tasks, now, task.with_done(true));
}

} // verus!

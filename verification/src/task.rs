//! The task record and its in-memory operations.

use vstd::prelude::*;
use vstd::string::StrSliceExecFns;

use crate::time::{instant_view, representable, rfc3339_instant, Instant, Timestamp};

verus! {

/// A single to-do item.
#[derive(Clone, Debug)]
pub struct Task {
    /// Assigned by the store on insertion; `None` until then.
    pub id: Option<i64>,
    pub title: String,
    pub details: Option<String>,
    pub done: bool,
    pub due_date: Option<Timestamp>,
    /// Recorded, and acted upon by no operation.
    pub is_recurring: bool,
    /// In minutes.
    pub estimated_duration: Option<i32>,
    /// In minutes.
    pub last_duration: Option<i32>,
    pub tag: Option<String>,
    /// The id of the task that this one is a subtask of.
    pub parent_id: Option<i64>,
    pub created_at: Timestamp,
    pub updated_at: Timestamp,
}

/// The mathematical value of a [`Task`].
pub ghost struct TaskView {
    pub id: Option<i64>,
    pub title: Seq<char>,
    pub details: Option<Seq<char>>,
    pub done: bool,
    pub due_date: Option<Instant>,
    pub is_recurring: bool,
    pub estimated_duration: Option<i32>,
    pub last_duration: Option<i32>,
    pub tag: Option<Seq<char>>,
    pub parent_id: Option<i64>,
    pub created_at: Instant,
    pub updated_at: Instant,
}

/// The characters of an optional text.
pub open spec fn text_view(text: Option<String>) -> Option<Seq<char>> {
    match text {
        Some(s) => Some(s@),
        None => None,
    }
}

/// The characters of an optional borrowed text.
pub open spec fn str_view(text: Option<&str>) -> Option<Seq<char>> {
    match text {
        Some(s) => Some(s@),
        None => None,
    }
}

/// The value of an optional task.
pub open spec fn task_view(task: Option<Task>) -> Option<TaskView> {
    match task {
        Some(t) => Some(t@),
        None => None,
    }
}

/// The values of a list of tasks.
pub open spec fn tasks_view(tasks: Seq<Task>) -> Seq<TaskView> {
    Seq::new(tasks.len(), |i: int| tasks[i]@)
}

impl View for Task {
    type V = TaskView;

    open spec fn view(&self) -> TaskView {
        TaskView {
            id: self.id,
            title: self.title@,
            details: text_view(self.details),
            done: self.done,
            due_date: instant_view(self.due_date),
            is_recurring: self.is_recurring,
            estimated_duration: self.estimated_duration,
            last_duration: self.last_duration,
            tag: text_view(self.tag),
            parent_id: self.parent_id,
            created_at: self.created_at@,
            updated_at: self.updated_at@,
        }
    }
}

impl TaskView {
    /// A task was never updated before it was created.
    pub open spec fn well_formed(self) -> bool {
        !self.updated_at.precedes(self.created_at)
    }

    /// A task that was made at `now` and not touched since.
    pub open spec fn fresh(title: Seq<char>, now: Instant) -> TaskView {
        TaskView {
            id: None,
            title,
            details: None,
            done: false,
            due_date: None,
            is_recurring: false,
            estimated_duration: None,
            last_duration: None,
            tag: None,
            parent_id: None,
            created_at: now,
            updated_at: now,
        }
    }

    /// The task after a change that was made at `now`: the update time moves to
    /// `now`, and never before the creation time.
    pub open spec fn touched(self, now: Instant) -> TaskView {
        TaskView { updated_at: now.later_of(self.created_at), ..self }
    }

    /// The task with these details.
    pub open spec fn with_details(self, details: Seq<char>) -> TaskView {
        TaskView { details: Some(details), ..self }
    }

    /// The task with this tag.
    pub open spec fn with_tag(self, tag: Seq<char>) -> TaskView {
        TaskView { tag: Some(tag), ..self }
    }

    /// The task with this due date.
    pub open spec fn with_due_date(self, due_date: Instant) -> TaskView {
        TaskView { due_date: Some(due_date), ..self }
    }

    /// The task as a subtask of the task with this id.
    pub open spec fn with_parent(self, parent_id: i64) -> TaskView {
        TaskView { parent_id: Some(parent_id), ..self }
    }

    /// The task with this completion flag.
    pub open spec fn with_done(self, done: bool) -> TaskView {
        TaskView { done, ..self }
    }

    /// The task with this estimate, in minutes.
    pub open spec fn with_estimated_duration(self, minutes: i32) -> TaskView {
        TaskView { estimated_duration: Some(minutes), ..self }
    }

    /// The task with this as the time it took last, in minutes.
    pub open spec fn with_last_duration(self, minutes: i32) -> TaskView {
        TaskView { last_duration: Some(minutes), ..self }
    }

    /// The task that a caller describes by a title and, where they are given
    /// and not empty, the texts of a tag and of a due date.
    pub open spec fn from_fields(
        title: Seq<char>,
        tag: Option<Seq<char>>,
        due_date: Option<Seq<char>>,
        now: Instant,
    ) -> TaskView {
        TaskView {
            tag: TaskView::given_tag(tag),
            due_date: TaskView::given_due_date(due_date),
            ..TaskView::fresh(title, now)
        }
    }

    /// Whether `self` is `before` after a change that was made at some instant
    /// that the clock read.
    pub open spec fn refreshed_from(self, before: TaskView) -> bool {
        exists|now: Instant|
            representable(now.secs, now.nanos) && self == #[trigger] before.touched(now)
    }

    /// Whether the task is overdue at `now`: it has a due date, it is not done,
    /// and the due date lies strictly before `now`.
    pub open spec fn overdue_at(self, now: Instant) -> bool {
        &&& !self.done
        &&& self.due_date matches Some(due)
        &&& due.precedes(now)
    }

    /// Whether the task is a subtask of another.
    pub open spec fn is_subtask(self) -> bool {
        self.parent_id is Some
    }

    /// The tag of a task whose caller gave this text for it: none where the
    /// text is absent or empty.
    pub open spec fn given_tag(text: Option<Seq<char>>) -> Option<Seq<char>> {
        match text {
            Some(tag) if tag.len() > 0 => Some(tag),
            _ => None,
        }
    }

    /// The due date of a task whose caller gave this text for it: none where
    /// the text is absent, empty or not RFC 3339.
    pub open spec fn given_due_date(text: Option<Seq<char>>) -> Option<Instant> {
        match text {
            Some(due) if due.len() > 0 => rfc3339_instant(due),
            _ => None,
        }
    }
}

impl Task {
    /// A task with this title, made at `now`: not done, with no details, tag,
    /// due date, durations or parent, and not yet stored.
    pub fn new_at(title: &str, now: Timestamp) -> (task: Task)
        ensures
            task@ == TaskView::fresh(title@, now@),
    {
        Task {
            id: None,
            title: title.to_owned(),
            details: None,
            done: false,
            due_date: None,
            is_recurring: false,
            estimated_duration: None,
            last_duration: None,
            tag: None,
            parent_id: None,
            created_at: now,
            updated_at: now,
        }
    }

    /// A task with this title, made now: at an instant that the clock read.
    pub fn new(title: &str) -> (task: Task)
        ensures
            task@ == TaskView::fresh(title@, task@.created_at),
            representable(task@.created_at.secs, task@.created_at.nanos),
    {
        Task::new_at(title, Timestamp::now())
    }

    /// A task made now from the fields that a caller may leave out: a tag that
    /// is absent or empty is no tag; a due date that is absent, empty or not
    /// RFC 3339 is no due date.
    pub fn from_fields(title: &str, tag: Option<&str>, due_date: Option<&str>) -> (task: Task)
        ensures
            task@.refreshed_from(
                TaskView::from_fields(title@, str_view(tag), str_view(due_date), task@.created_at),
            ),
            task@.well_formed(),
    {
        let mut task = Task::new(title);
        let ghost mut given = task@;
        assert(task@ == given.touched(task@.created_at));
        assert(task@.refreshed_from(given));
        if let Some(tag) = tag {
            if tag.unicode_len() > 0 {
                let ghost before = task@;
                task = task.with_tag(tag);
                proof {
                    let now = choose|now: Instant|
                        representable(now.secs, now.nanos) && task@ == #[trigger] before.with_tag(
                            tag@,
                        ).touched(now);
                    given = given.with_tag(tag@);
                    assert(task@ == given.touched(now));
                    assert(task@.refreshed_from(given));
                }
            }
        }
        if let Some(text) = due_date {
            if text.unicode_len() > 0 {
                if let Some(due) = Timestamp::parse_rfc3339(text) {
                    let ghost before = task@;
                    task = task.with_due_date(due);
                    proof {
                        let now = choose|now: Instant|
                            representable(now.secs, now.nanos)
                                && task@ == #[trigger] before.with_due_date(due@).touched(now);
                        given = given.with_due_date(due@);
                        assert(task@ == given.touched(now));
                        assert(task@.refreshed_from(given));
                    }
                }
            }
        }
        task
    }

    /// Moves the update time to `now`, or leaves it at the creation time where
    /// `now` lies before that.
    pub fn touch(&mut self, now: Timestamp)
        ensures
            final(self)@ == old(self)@.touched(now@),
            final(self)@.well_formed(),
    {
        self.updated_at = now.later_of(self.created_at);
    }

    /// The task with these details, updated now.
    pub fn with_details(self, details: &str) -> (task: Task)
        ensures
            task@.refreshed_from(self@.with_details(details@)),
            task@.well_formed(),
    {
        let mut task = self;
        task.details = Some(details.to_owned());
        task.touch(Timestamp::now());
        task
    }

    /// The task with this tag, updated now.
    pub fn with_tag(self, tag: &str) -> (task: Task)
        ensures
            task@.refreshed_from(self@.with_tag(tag@)),
            task@.well_formed(),
    {
        let mut task = self;
        task.tag = Some(tag.to_owned());
        task.touch(Timestamp::now());
        task
    }

    /// The task with this due date, updated now.
    pub fn with_due_date(self, due_date: Timestamp) -> (task: Task)
        ensures
            task@.refreshed_from(self@.with_due_date(due_date@)),
            task@.well_formed(),
    {
        let mut task = self;
        task.due_date = Some(due_date);
        task.touch(Timestamp::now());
        task
    }

    /// The task as a subtask of the task with this id, updated now.
    pub fn with_parent(self, parent_id: i64) -> (task: Task)
        ensures
            task@.refreshed_from(self@.with_parent(parent_id)),
            task@.well_formed(),
    {
        let mut task = self;
        task.parent_id = Some(parent_id);
        task.touch(Timestamp::now());
        task
    }

    /// Marks the task as done, updated now.
    pub fn mark_done(&mut self)
        ensures
            final(self)@.refreshed_from(old(self)@.with_done(true)),
            final(self)@.well_formed(),
    {
        self.done = true;
        self.touch(Timestamp::now());
    }

    /// Marks the task as not done, updated now.
    pub fn mark_undone(&mut self)
        ensures
            final(self)@.refreshed_from(old(self)@.with_done(false)),
            final(self)@.well_formed(),
    {
        self.done = false;
        self.touch(Timestamp::now());
    }

    /// Sets the estimate, in minutes, updated now.
    pub fn set_estimated_duration(&mut self, minutes: i32)
        ensures
            final(self)@.refreshed_from(old(self)@.with_estimated_duration(minutes)),
            final(self)@.well_formed(),
    {
        self.estimated_duration = Some(minutes);
        self.touch(Timestamp::now());
    }

    /// Records how long the task took last time, in minutes, updated now.
    pub fn record_duration(&mut self, minutes: i32)
        ensures
            final(self)@.refreshed_from(old(self)@.with_last_duration(minutes)),
            final(self)@.well_formed(),
    {
        self.last_duration = Some(minutes);
        self.touch(Timestamp::now());
    }

    /// Whether the task is overdue at `now`.
    pub fn is_overdue_at(&self, now: &Timestamp) -> (overdue: bool)
        ensures
            overdue == self@.overdue_at(now@),
    {
        match &self.due_date {
            Some(due) => !self.done && due.is_before(now),
            None => false,
        }
    }

    /// Whether the task is overdue now: at the instant that the clock reads. A
    /// task that is done, or has no due date, never is.
    pub fn is_overdue(&self) -> (overdue: bool)
        ensures
            exists|now: Instant|
                representable(now.secs, now.nanos) && overdue == #[trigger] self@.overdue_at(now),
            overdue ==> !self@.done && self@.due_date is Some,
    {
        let now = Timestamp::now();
        self.is_overdue_at(&now)
    }

    /// Whether the task is a subtask of another.
    pub fn is_subtask(&self) -> (subtask: bool)
        ensures
            subtask == self@.is_subtask(),
    {
        self.parent_id.is_some()
    }
}

} // verus!

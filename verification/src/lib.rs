//! Task tracking: task records, their durable store, and the list operations
//! over it.
//!
//! A [`Task`] lives in memory; a [`TaskList`] keeps tasks in one SQLite
//! database, through a [`Database`]. What the database holds is SQLite's to
//! decide, so the contracts of the store say what the library is answerable
//! for: which statements it hands to the store, with which values bound, what
//! it makes of each answer, and how it reads the rows that come back. The
//! module [`store`] keeps the transcript of that exchange; the modules
//! [`laws`] and [`placeholders`] hold what follows from the contracts.

use vstd::prelude::*;

pub mod database;
pub mod laws;
pub mod placeholders;
pub mod row;
pub mod statement;
pub mod store;
pub mod task;
pub mod task_list;
pub mod time;

pub use database::{Database, StorageError, TaskFilter, TaskStatus};
pub use task::Task;
pub use task_list::{Listing, TaskList};
pub use time::Timestamp;

verus! {

/// Sum of two counters.
pub fn add(left: u64, right: u64) -> (sum: u64)
    requires
        left + right <= u64::MAX,
    ensures
        sum == left + right,
{
    left + right
}

} // verus!

//! Record shapes exchanged with the presentation layer.
//!
//! These are a data contract only: the backend declares them but attaches
//! no lifecycle operations or invariants to them. The application shell
//! holds serializable copies of them for transport.

use vstd::prelude::*;

verus! {

/// A task record as the presentation layer exchanges it.
#[derive(Debug)]
pub struct Task {
    pub id: String,
    pub title: String,
    pub description: Option<String>,
    pub date: Option<String>,
    pub state: String,
    pub subtasks: Vec<Subtask>,
    pub energy_tag: Option<String>,
    pub order: i32,
    pub created_at: String,
    pub updated_at: String,
}

/// A subtask record nested inside a `Task`.
#[derive(Debug)]
pub struct Subtask {
    pub id: String,
    pub title: String,
    pub description: Option<String>,
    pub completed: bool,
    pub order: i32,
}

} // verus!

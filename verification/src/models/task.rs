//! Tasks: trackable units of work.

use vstd::prelude::*;

use crate::clock::Timestamp;

verus! {

/// The text of an optional string, as a sequence of characters.
pub open spec fn opt_text(text: Option<String>) -> Option<Seq<char>> {
    match text {
        Some(s) => Some(s@),
        None => None,
    }
}

/// Copies an optional string.
pub fn clone_opt_text(text: &Option<String>) -> (copy: Option<String>)
    ensures
        opt_text(copy) == opt_text(*text),
{
    match text {
        Some(s) => Some(s.clone()),
        None => None,
    }
}

/// A trackable unit of work.
#[derive(Debug, PartialEq, Eq)]
pub struct Task {
    pub id: u128,
    pub title: String,
    pub description: Option<String>,
    pub is_active: bool,
    pub created_at: Timestamp,
    pub updated_at: Timestamp,
}

/// What a `Task` holds, as mathematical values.
pub struct TaskView {
    pub id: u128,
    pub title: Seq<char>,
    pub description: Option<Seq<char>>,
    pub is_active: bool,
    pub created_at: Timestamp,
    pub updated_at: Timestamp,
}

impl View for Task {
    type V = TaskView;

    open spec fn view(&self) -> TaskView {
        TaskView {
            id: self.id,
            title: self.title@,
            description: opt_text(self.description),
            is_active: self.is_active,
            created_at: self.created_at,
            updated_at: self.updated_at,
        }
    }
}

impl Clone for Task {
    fn clone(&self) -> (copy: Self)
        ensures
            copy@ == self@,
    {
        Task {
            id: self.id,
            title: self.title.clone(),
            description: clone_opt_text(&self.description),
            is_active: self.is_active,
            created_at: self.created_at,
            updated_at: self.updated_at,
        }
    }
}

/// The payload that creates or rewrites a task.
#[derive(Debug)]
pub struct CreateTask {
    pub title: String,
    pub description: Option<String>,
}

/// What a `CreateTask` holds, as mathematical values.
pub struct CreateTaskView {
    pub title: Seq<char>,
    pub description: Option<Seq<char>>,
}

impl View for CreateTask {
    type V = CreateTaskView;

    open spec fn view(&self) -> CreateTaskView {
        CreateTaskView { title: self.title@, description: opt_text(self.description) }
    }
}

} // verus!

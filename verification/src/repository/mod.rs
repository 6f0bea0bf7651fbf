//! The two in-memory repositories.

pub mod task;
pub mod task_log;

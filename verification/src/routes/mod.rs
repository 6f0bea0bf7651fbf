//! The request handlers, one for each route of the service.

pub mod health;
pub mod task_logs;
pub mod tasks;

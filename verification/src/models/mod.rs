//! The records that the service stores and the payloads that create them.

pub mod task;
pub mod task_log;

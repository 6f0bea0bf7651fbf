//! The state that the request handlers share: the two repositories.

use vstd::prelude::*;

use crate::models::task::TaskView;
use crate::models::task_log::TaskLogView;
use crate::repository::task::TaskRepository;
use crate::repository::task_log::TaskLogRepository;

verus! {

/// The task repository and the log repository of one service.
pub struct AppState {
    pub tasks: TaskRepository,
    pub task_logs: TaskLogRepository,
}

/// What the two repositories hold.
pub struct AppStateView {
    pub tasks: Map<u128, TaskView>,
    pub task_logs: Map<u128, TaskLogView>,
}

impl View for AppState {
    type V = AppStateView;

    open spec fn view(&self) -> AppStateView {
        AppStateView { tasks: self.tasks@, task_logs: self.task_logs@ }
    }
}

impl AppState {
    /// Both repositories keep their invariants.
    pub open spec fn wf(&self) -> bool {
        self.tasks.wf() && self.task_logs.wf()
    }

    pub fn new() -> (state: Self)
        ensures
            state@.tasks == Map::<u128, TaskView>::empty(),
            state@.task_logs == Map::<u128, TaskLogView>::empty(),
            state.wf(),
    {
        AppState { tasks: TaskRepository::new(), task_logs: TaskLogRepository::new() }
    }
}

} // verus!

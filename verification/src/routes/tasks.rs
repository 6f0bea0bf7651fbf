//! The handlers of the task routes.

use vstd::prelude::*;

use crate::clock::{now, Timestamp};
use crate::errors::{error_status, invalid_id_error, ApiErrorView};
use crate::ident::{is_canonical_id, is_random_id, random_id};
use crate::models::task::{CreateTask, Task, TaskView};
use crate::repository::task::{
    created_task, found_task, lists_active_tasks, rewritten_task, task_is_active, task_not_found,
    task_views, tasks_after_delete,
};
use crate::state::AppState;
use crate::status::{BAD_REQUEST, CREATED, NOT_FOUND, NO_CONTENT, OK};
use crate::utils::{parse_uuid, parsed_id, result_view, ApiResult};

verus! {

/// `GET /tasks`: answers 200 with the active tasks, in no particular order.
pub fn list_tasks(state: &AppState) -> (listed: (u16, Vec<Task>))
    requires
        state.wf(),
    ensures
        listed.0 == OK,
        lists_active_tasks(task_views(listed.1@), state@.tasks),
{
    (OK, state.tasks.list_active())
}

/// `POST /tasks`: stores a new active task under a fresh random identifier
/// and answers 201 with the task. The task is created and last updated at
/// the one instant that the clock gave.
pub fn create_task(state: &mut AppState, payload: CreateTask) -> (created: (u16, Task))
    requires
        old(state).wf(),
    ensures
        final(state).wf(),
        created.0 == CREATED,
        is_random_id(created.1@.id),
        created.1@ == created_task(
            created.1@.id,
            payload@.title,
            payload@.description,
            created.1@.created_at,
        ),
        created.1@.is_active,
        created.1@.created_at == created.1@.updated_at,
        final(state)@.tasks == old(state)@.tasks.insert(created.1@.id, created.1@),
        final(state)@.task_logs == old(state)@.task_logs,
{
    let id = random_id();
    let at = now();
    let task = state.tasks.create(id, payload.title, payload.description, at);
    (CREATED, task)
}

/// What `get_task` answers.
pub open spec fn get_task_outcome(tasks: Map<u128, TaskView>, task_id: Seq<char>) -> Result<
    (u16, TaskView),
    ApiErrorView,
> {
    match parsed_id(task_id) {
        Ok(id) => match found_task(tasks, id) {
            Ok(task) => Ok((OK, task)),
            Err(e) => Err(e),
        },
        Err(e) => Err(e),
    }
}

/// A request for a task fails in one of two ways: with 400 where the
/// identifier is malformed, and with 404 where it is well formed and names
/// no active task.
pub proof fn lemma_get_task_failures(tasks: Map<u128, TaskView>, task_id: Seq<char>)
    ensures
        match get_task_outcome(tasks, task_id) {
            Ok(reply) => {
                &&& reply.0 == OK
                &&& parsed_id(task_id) matches Ok(id)
                &&& task_is_active(tasks, id)
                &&& reply.1 == tasks[id]
            },
            Err(e) => if is_canonical_id(task_id) {
                e == task_not_found() && error_status(e) == NOT_FOUND
            } else {
                e == invalid_id_error() && error_status(e) == BAD_REQUEST
            },
        },
{
}

/// `GET /tasks/{id}`: answers 200 with the task, if the identifier is well
/// formed and names an active task.
pub fn get_task(state: &AppState, task_id: &str) -> (found: ApiResult<(u16, Task)>)
    ensures
        result_view(found) == get_task_outcome(state@.tasks, task_id@),
{
    let id = match parse_uuid(task_id) {
        Ok(id) => id,
        Err(e) => {
            return Err(e);
        },
    };
    match state.tasks.get_active(id) {
        Ok(task) => Ok((OK, task)),
        Err(e) => Err(e),
    }
}

/// `PUT /tasks/{id}`: rewrites the task, if the identifier is well formed
/// and names an active task, and answers 200 with the task as it then
/// stands, last updated at the instant that the clock gave. Nothing changes
/// otherwise.
pub fn update_task(state: &mut AppState, task_id: &str, payload: CreateTask) -> (updated:
    ApiResult<(u16, Task)>)
    requires
        old(state).wf(),
    ensures
        final(state).wf(),
        final(state)@.task_logs == old(state)@.task_logs,
        match parsed_id(task_id@) {
            Ok(id) => match updated {
                Ok(reply) => {
                    &&& reply.0 == OK
                    &&& task_is_active(old(state)@.tasks, id)
                    &&& reply.1@ == rewritten_task(
                        old(state)@.tasks[id],
                        payload@.title,
                        payload@.description,
                        reply.1@.updated_at,
                    )
                    &&& final(state)@.tasks == old(state)@.tasks.insert(id, reply.1@)
                },
                Err(e) => {
                    &&& !task_is_active(old(state)@.tasks, id)
                    &&& e@ == task_not_found()
                    &&& final(state)@.tasks == old(state)@.tasks
                },
            },
            Err(invalid) => {
                &&& updated matches Err(e) && e@ == invalid
                &&& final(state)@.tasks == old(state)@.tasks
            },
        },
{
    let id = match parse_uuid(task_id) {
        Ok(id) => id,
        Err(e) => {
            return Err(e);
        },
    };
    let at = now();
    match state.tasks.update_active(id, payload.title, payload.description, at) {
        Ok(task) => Ok((OK, task)),
        Err(e) => Err(e),
    }
}

/// `DELETE /tasks/{id}`: marks the task inactive, if the identifier is well
/// formed and names an active task, and answers 204. Nothing changes
/// otherwise.
pub fn delete_task(state: &mut AppState, task_id: &str) -> (deleted: ApiResult<u16>)
    requires
        old(state).wf(),
    ensures
        final(state).wf(),
        final(state)@.task_logs == old(state)@.task_logs,
        match parsed_id(task_id@) {
            Ok(id) => match deleted {
                Ok(status) => {
                    &&& status == NO_CONTENT
                    &&& task_is_active(old(state)@.tasks, id)
                    &&& !task_is_active(final(state)@.tasks, id)
                    &&& exists|at: Timestamp|
                        final(state)@.tasks == #[trigger] tasks_after_delete(
                            old(state)@.tasks,
                            id,
                            at,
                        )
                },
                Err(e) => {
                    &&& !task_is_active(old(state)@.tasks, id)
                    &&& e@ == task_not_found()
                    &&& final(state)@.tasks == old(state)@.tasks
                },
            },
            Err(invalid) => {
                &&& deleted matches Err(e) && e@ == invalid
                &&& final(state)@.tasks == old(state)@.tasks
            },
        },
{
    let id = match parse_uuid(task_id) {
        Ok(id) => id,
        Err(e) => {
            return Err(e);
        },
    };
    let at = now();
    match state.tasks.soft_delete(id, at) {
        Ok(()) => Ok(NO_CONTENT),
        Err(e) => Err(e),
    }
}

} // verus!

//! The handlers of the log routes.

use vstd::prelude::*;

use crate::clock::now;
use crate::errors::{error_status, invalid_id_error, ApiError, ApiErrorView};
use crate::ident::{is_canonical_id, is_random_id, random_id};
use crate::models::task_log::{duration_is_derived, CreateTaskLog, TaskLog, TaskLogView};
use crate::repository::task::{task_is_active, task_not_found};
use crate::repository::task_log::{
    created_log, found_log, lists_logs_of_task, log_not_found, log_views, revised_log,
};
use crate::state::AppState;
use crate::status::{BAD_REQUEST, CREATED, NOT_FOUND, NO_CONTENT, OK};
use crate::utils::{parse_uuid, parsed_id, result_view, ApiResult};

verus! {

/// `GET /tasks/{id}/logs`: answers 200 with the logs of the task, in no
/// particular order, if the identifier is well formed and names an active
/// task.
pub fn list_logs_for_task(state: &AppState, task_id: &str) -> (listed: ApiResult<
    (u16, Vec<TaskLog>),
>)
    requires
        state.wf(),
    ensures
        match parsed_id(task_id@) {
            Ok(task) => match listed {
                Ok(reply) => {
                    &&& reply.0 == OK
                    &&& task_is_active(state@.tasks, task)
                    &&& lists_logs_of_task(log_views(reply.1@), state@.task_logs, task)
                },
                Err(e) => !task_is_active(state@.tasks, task) && e@ == task_not_found(),
            },
            Err(invalid) => listed matches Err(e) && e@ == invalid,
        },
{
    let task = match parse_uuid(task_id) {
        Ok(id) => id,
        Err(e) => {
            return Err(e);
        },
    };
    match state.task_logs.list_for_task(&state.tasks, task) {
        Ok(logs) => Ok((OK, logs)),
        Err(e) => Err(e),
    }
}

/// `POST /tasks/{id}/logs`: stores a new log for the task under a fresh
/// random identifier, if the identifier of the task is well formed and
/// names an active task, and answers 201 with the log. The log is created
/// and last updated at the one instant that the clock gave, which is also
/// its start unless the payload gives one. Nothing changes otherwise.
pub fn create_log_for_task(state: &mut AppState, task_id: &str, payload: CreateTaskLog) -> (created:
    ApiResult<(u16, TaskLog)>)
    requires
        old(state).wf(),
    ensures
        final(state).wf(),
        final(state)@.tasks == old(state)@.tasks,
        match parsed_id(task_id@) {
            Ok(task) => match created {
                Ok(reply) => {
                    &&& reply.0 == CREATED
                    &&& task_is_active(old(state)@.tasks, task)
                    &&& is_random_id(reply.1@.id)
                    &&& reply.1@ == created_log(
                        reply.1@.id,
                        task,
                        payload@,
                        reply.1@.created_at,
                    )
                    &&& duration_is_derived(reply.1@)
                    &&& final(state)@.task_logs == old(state)@.task_logs.insert(
                        reply.1@.id,
                        reply.1@,
                    )
                },
                Err(e) => {
                    &&& !task_is_active(old(state)@.tasks, task)
                    &&& e@ == task_not_found()
                    &&& final(state)@.task_logs == old(state)@.task_logs
                },
            },
            Err(invalid) => {
                &&& created matches Err(e) && e@ == invalid
                &&& final(state)@.task_logs == old(state)@.task_logs
            },
        },
{
    let task = match parse_uuid(task_id) {
        Ok(id) => id,
        Err(e) => {
            return Err(e);
        },
    };
    if !state.tasks.is_active(task) {
        return Err(ApiError::not_found("task not found"));
    }
    let at = now();
    let id = random_id();
    match state.task_logs.create_for_task(&state.tasks, id, task, payload, at) {
        Ok(log) => Ok((CREATED, log)),
        Err(e) => Err(e),
    }
}

/// What `get_log` answers.
pub open spec fn get_log_outcome(logs: Map<u128, TaskLogView>, log_id: Seq<char>) -> Result<
    (u16, TaskLogView),
    ApiErrorView,
> {
    match parsed_id(log_id) {
        Ok(id) => match found_log(logs, id) {
            Ok(log) => Ok((OK, log)),
            Err(e) => Err(e),
        },
        Err(e) => Err(e),
    }
}

/// A request for a log fails in one of two ways: with 400 where the
/// identifier is malformed, and with 404 where it is well formed and names
/// no log. The tasks have no part in it.
pub proof fn lemma_get_log_failures(logs: Map<u128, TaskLogView>, log_id: Seq<char>)
    ensures
        match get_log_outcome(logs, log_id) {
            Ok(reply) => {
                &&& reply.0 == OK
                &&& parsed_id(log_id) matches Ok(id)
                &&& logs.contains_key(id)
                &&& reply.1 == logs[id]
            },
            Err(e) => if is_canonical_id(log_id) {
                e == log_not_found() && error_status(e) == NOT_FOUND
            } else {
                e == invalid_id_error() && error_status(e) == BAD_REQUEST
            },
        },
{
}

/// `GET /logs/{id}`: answers 200 with the log, if the identifier is well
/// formed and names a log. The log of a task that has since been deleted
/// is still found.
pub fn get_log(state: &AppState, log_id: &str) -> (found: ApiResult<(u16, TaskLog)>)
    ensures
        result_view(found) == get_log_outcome(state@.task_logs, log_id@),
{
    let id = match parse_uuid(log_id) {
        Ok(id) => id,
        Err(e) => {
            return Err(e);
        },
    };
    match state.task_logs.get(id) {
        Ok(log) => Ok((OK, log)),
        Err(e) => Err(e),
    }
}

/// `PUT /logs/{id}`: revises the log, if the identifier is well formed and
/// names a log, and answers 200 with the log as it then stands, last
/// updated at the instant that the clock gave. Nothing changes otherwise.
pub fn update_log(state: &mut AppState, log_id: &str, payload: CreateTaskLog) -> (revised:
    ApiResult<(u16, TaskLog)>)
    requires
        old(state).wf(),
    ensures
        final(state).wf(),
        final(state)@.tasks == old(state)@.tasks,
        match parsed_id(log_id@) {
            Ok(id) => match revised {
                Ok(reply) => {
                    &&& reply.0 == OK
                    &&& old(state)@.task_logs.contains_key(id)
                    &&& reply.1@ == revised_log(
                        old(state)@.task_logs[id],
                        payload@,
                        reply.1@.updated_at,
                    )
                    &&& duration_is_derived(reply.1@)
                    &&& final(state)@.task_logs == old(state)@.task_logs.insert(id, reply.1@)
                },
                Err(e) => {
                    &&& !old(state)@.task_logs.contains_key(id)
                    &&& e@ == log_not_found()
                    &&& final(state)@.task_logs == old(state)@.task_logs
                },
            },
            Err(invalid) => {
                &&& revised matches Err(e) && e@ == invalid
                &&& final(state)@.task_logs == old(state)@.task_logs
            },
        },
{
    let id = match parse_uuid(log_id) {
        Ok(id) => id,
        Err(e) => {
            return Err(e);
        },
    };
    let at = now();
    match state.task_logs.update(id, payload, at) {
        Ok(log) => Ok((OK, log)),
        Err(e) => Err(e),
    }
}

/// `DELETE /logs/{id}`: removes the log, if the identifier is well formed
/// and names a log, and answers 204. Nothing changes otherwise.
pub fn delete_log(state: &mut AppState, log_id: &str) -> (deleted: ApiResult<u16>)
    requires
        old(state).wf(),
    ensures
        final(state).wf(),
        final(state)@.tasks == old(state)@.tasks,
        match parsed_id(log_id@) {
            Ok(id) => match deleted {
                Ok(status) => {
                    &&& status == NO_CONTENT
                    &&& old(state)@.task_logs.contains_key(id)
                    &&& final(state)@.task_logs == old(state)@.task_logs.remove(id)
                },
                Err(e) => {
                    &&& !old(state)@.task_logs.contains_key(id)
                    &&& e@ == log_not_found()
                    &&& final(state)@.task_logs == old(state)@.task_logs
                },
            },
            Err(invalid) => {
                &&& deleted matches Err(e) && e@ == invalid
                &&& final(state)@.task_logs == old(state)@.task_logs
            },
        },
{
    let id = match parse_uuid(log_id) {
        Ok(id) => id,
        Err(e) => {
            return Err(e);
        },
    };
    match state.task_logs.delete(id) {
        Ok(()) => Ok(NO_CONTENT),
        Err(e) => Err(e),
    }
}

} // verus!

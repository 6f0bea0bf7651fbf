//! The log repository: the work logs, keyed by their identifiers. A log is
//! created against an active task; once stored it is found, revised and
//! removed by its own identifier, whatever has become of the task.

use std::collections::HashMap;
use vstd::prelude::*;
use vstd::std_specs::iter::IteratorSpec;

use crate::clock::Timestamp;
use crate::errors::{ApiError, ApiErrorView};
use crate::models::task::TaskView;
use crate::models::task_log::{
    duration_is_derived, duration_of, CreateTaskLog, CreateTaskLogView, TaskLog, TaskLogView,
};
use crate::repository::task::{task_is_active, task_not_found, TaskRepository};
use crate::utils::{result_view, ApiResult};

verus! {

broadcast use vstd::std_specs::hash::group_hash_axioms;

/// The error for a log that is absent.
pub open spec fn log_not_found() -> ApiErrorView {
    ApiErrorView::NotFound("log not found"@)
}

/// Every log is stored under its own identifier, with the duration that
/// its start and end give.
pub open spec fn logs_consistent(logs: Map<u128, TaskLogView>) -> bool {
    forall|id: u128| #[trigger]
        logs.contains_key(id) ==> logs[id].id == id && duration_is_derived(logs[id])
}

/// The log that `create_for_task` makes: it starts at `now` unless the
/// payload says when, and its duration follows from its start and end.
pub open spec fn created_log(
    id: u128,
    task_id: u128,
    payload: CreateTaskLogView,
    now: Timestamp,
) -> TaskLogView {
    let start_at = match payload.start_at {
        Some(start) => start,
        None => now,
    };
    TaskLogView {
        id,
        task_id,
        start_at,
        end_at: payload.end_at,
        duration_min: duration_of(start_at, payload.end_at),
        memo: payload.memo,
        created_at: now,
        updated_at: now,
    }
}

/// The log `log` after a revision: each field that the payload gives
/// replaces the earlier value, each field that it leaves out is kept, and
/// the duration follows from the start and end as they then stand.
pub open spec fn revised_log(
    log: TaskLogView,
    payload: CreateTaskLogView,
    now: Timestamp,
) -> TaskLogView {
    let start_at = match payload.start_at {
        Some(start) => start,
        None => log.start_at,
    };
    let end_at = if payload.end_at is Some {
        payload.end_at
    } else {
        log.end_at
    };
    TaskLogView {
        start_at,
        end_at,
        duration_min: duration_of(start_at, end_at),
        memo: if payload.memo is Some {
            payload.memo
        } else {
            log.memo
        },
        updated_at: now,
        ..log
    }
}

/// What `create_for_task` returns.
pub open spec fn create_log_outcome(
    tasks: Map<u128, TaskView>,
    id: u128,
    task_id: u128,
    payload: CreateTaskLogView,
    now: Timestamp,
) -> Result<TaskLogView, ApiErrorView> {
    if task_is_active(tasks, task_id) {
        Ok(created_log(id, task_id, payload, now))
    } else {
        Err(task_not_found())
    }
}

/// The repository after `create_for_task`.
pub open spec fn logs_after_create(
    tasks: Map<u128, TaskView>,
    logs: Map<u128, TaskLogView>,
    id: u128,
    task_id: u128,
    payload: CreateTaskLogView,
    now: Timestamp,
) -> Map<u128, TaskLogView> {
    if task_is_active(tasks, task_id) {
        logs.insert(id, created_log(id, task_id, payload, now))
    } else {
        logs
    }
}

/// What looking up `id` gives.
pub open spec fn found_log(logs: Map<u128, TaskLogView>, id: u128) -> Result<
    TaskLogView,
    ApiErrorView,
> {
    if logs.contains_key(id) {
        Ok(logs[id])
    } else {
        Err(log_not_found())
    }
}

/// What `update` returns.
pub open spec fn revise_outcome(
    logs: Map<u128, TaskLogView>,
    id: u128,
    payload: CreateTaskLogView,
    now: Timestamp,
) -> Result<TaskLogView, ApiErrorView> {
    if logs.contains_key(id) {
        Ok(revised_log(logs[id], payload, now))
    } else {
        Err(log_not_found())
    }
}

/// The repository after `update`.
pub open spec fn logs_after_revise(
    logs: Map<u128, TaskLogView>,
    id: u128,
    payload: CreateTaskLogView,
    now: Timestamp,
) -> Map<u128, TaskLogView> {
    if logs.contains_key(id) {
        logs.insert(id, revised_log(logs[id], payload, now))
    } else {
        logs
    }
}

/// What `delete` returns.
pub open spec fn remove_outcome(logs: Map<u128, TaskLogView>, id: u128) -> Result<
    (),
    ApiErrorView,
> {
    if logs.contains_key(id) {
        Ok(())
    } else {
        Err(log_not_found())
    }
}

/// `items` holds the logs of `logs` that were made for the task `task_id`,
/// each of them once, in any order, and nothing else.
pub open spec fn lists_logs_of_task(
    items: Seq<TaskLogView>,
    logs: Map<u128, TaskLogView>,
    task_id: u128,
) -> bool {
    &&& forall|i: int|
        0 <= i < items.len() ==> logs.contains_key(#[trigger] items[i].id) && logs[items[i].id]
            == items[i] && items[i].task_id == task_id
    &&& forall|id: u128|
        #![trigger logs[id]]
        logs.contains_key(id) && logs[id].task_id == task_id ==> exists|i: int|
            0 <= i < items.len() && #[trigger] items[i] == logs[id]
    &&& forall|i: int, j: int|
        0 <= i < j < items.len() ==> (#[trigger] items[i]).id != (#[trigger] items[j]).id
}

/// The views of a run of logs.
pub open spec fn log_views(logs: Seq<TaskLog>) -> Seq<TaskLogView> {
    Seq::new(logs.len(), |i: int| logs[i]@)
}

/// What `list_for_task` returns: `listed` holds the logs of the task where
/// the task is active, and reports the task missing where it is not.
pub open spec fn lists_for_task(
    listed: ApiResult<Vec<TaskLog>>,
    tasks: Map<u128, TaskView>,
    logs: Map<u128, TaskLogView>,
    task_id: u128,
) -> bool {
    match listed {
        Ok(items) => task_is_active(tasks, task_id) && lists_logs_of_task(
            log_views(items@),
            logs,
            task_id,
        ),
        Err(e) => !task_is_active(tasks, task_id) && e@ == task_not_found(),
    }
}

/// A log's duration always follows from its start and end: on creation,
/// and after every revision, whichever fields the revision touches and
/// whatever the log held before.
pub proof fn lemma_duration_follows_start_and_end(
    log: TaskLogView,
    id: u128,
    task_id: u128,
    payload: CreateTaskLogView,
    now: Timestamp,
)
    ensures
        duration_is_derived(created_log(id, task_id, payload, now)),
        duration_is_derived(revised_log(log, payload, now)),
        created_log(id, task_id, payload, now).duration_min is Some <==> created_log(
            id,
            task_id,
            payload,
            now,
        ).end_at is Some,
        revised_log(log, payload, now).duration_min is Some <==> revised_log(
            log,
            payload,
            now,
        ).end_at is Some,
{
}

/// Creating a log fails exactly when the task is absent or deleted, and
/// then reports the task missing and stores nothing.
pub proof fn lemma_log_creation_needs_active_task(
    tasks: Map<u128, TaskView>,
    logs: Map<u128, TaskLogView>,
    id: u128,
    task_id: u128,
    payload: CreateTaskLogView,
    now: Timestamp,
)
    ensures
        create_log_outcome(tasks, id, task_id, payload, now) is Err <==> !task_is_active(
            tasks,
            task_id,
        ),
        !task_is_active(tasks, task_id) ==> create_log_outcome(tasks, id, task_id, payload, now)
            == Err::<TaskLogView, ApiErrorView>(task_not_found()) && logs_after_create(
            tasks,
            logs,
            id,
            task_id,
            payload,
            now,
        ) == logs,
{
}

/// A log that was just created is found under its identifier, whatever
/// becomes of its task; a log that was removed is found no more.
pub proof fn lemma_log_is_found_until_removed(
    tasks: Map<u128, TaskView>,
    logs: Map<u128, TaskLogView>,
    id: u128,
    task_id: u128,
    payload: CreateTaskLogView,
    now: Timestamp,
)
    requires
        task_is_active(tasks, task_id),
    ensures
        found_log(logs_after_create(tasks, logs, id, task_id, payload, now), id) == Ok::<
            TaskLogView,
            ApiErrorView,
        >(created_log(id, task_id, payload, now)),
        found_log(logs.remove(id), id) == Err::<TaskLogView, ApiErrorView>(log_not_found()),
        remove_outcome(logs.remove(id), id) == Err::<(), ApiErrorView>(log_not_found()),
{
}

/// Every operation keeps each log under its own identifier, with the
/// duration that its start and end give.
pub proof fn lemma_logs_stay_consistent(
    tasks: Map<u128, TaskView>,
    logs: Map<u128, TaskLogView>,
    id: u128,
    task_id: u128,
    payload: CreateTaskLogView,
    now: Timestamp,
)
    requires
        logs_consistent(logs),
    ensures
        logs_consistent(logs_after_create(tasks, logs, id, task_id, payload, now)),
        logs_consistent(logs_after_revise(logs, id, payload, now)),
        logs_consistent(logs.remove(id)),
{
}

/// The logs, each stored under its identifier.
pub struct TaskLogRepository {
    logs: HashMap<u128, TaskLog>,
}

impl View for TaskLogRepository {
    type V = Map<u128, TaskLogView>;

    closed spec fn view(&self) -> Map<u128, TaskLogView> {
        self.logs@.map_values(|l: TaskLog| l@)
    }
}

impl TaskLogRepository {
    /// The repository's invariant: every log is stored under its own
    /// identifier, and its duration is the one its start and end give.
    pub open spec fn wf(&self) -> bool {
        logs_consistent(self@)
    }

    pub fn new() -> (repo: Self)
        ensures
            repo@ == Map::<u128, TaskLogView>::empty(),
            repo.wf(),
    {
        let repo = TaskLogRepository { logs: HashMap::new() };
        assert(repo@ =~= Map::<u128, TaskLogView>::empty());
        repo
    }

    /// Stores a new log for the task `task_id` under `id`, provided that
    /// the task is present and not deleted. A log already stored under `id`
    /// is replaced. An end that lies before the start is accepted, and
    /// gives a negative duration.
    pub fn create_for_task(
        &mut self,
        tasks: &TaskRepository,
        id: u128,
        task_id: u128,
        payload: CreateTaskLog,
        now: Timestamp,
    ) -> (created: ApiResult<TaskLog>)
        requires
            old(self).wf(),
        ensures
            final(self).wf(),
            result_view(created) == create_log_outcome(tasks@, id, task_id, payload@, now),
            created is Err <==> !task_is_active(tasks@, task_id),
            created matches Err(e) ==> e@ == task_not_found(),
            created matches Ok(log) ==> duration_is_derived(log@),
            final(self)@ == logs_after_create(tasks@, old(self)@, id, task_id, payload@, now),
    {
        if !tasks.is_active(task_id) {
            return Err(ApiError::not_found("task not found"));
        }
        let start_at = match payload.start_at {
            Some(start) => start,
            None => now,
        };
        let duration_min = match payload.end_at {
            Some(end) => Some(TaskLog::calculate_duration(start_at, end)),
            None => None,
        };
        let log = TaskLog {
            id,
            task_id,
            start_at,
            end_at: payload.end_at,
            duration_min,
            memo: payload.memo,
            created_at: now,
            updated_at: now,
        };
        let stored = log.clone();
        self.logs.insert(id, stored);
        assert(self@ =~= old(self)@.insert(id, log@));
        Ok(log)
    }

    /// The log named `log_id`, if it is present. The task it was made for
    /// is not consulted.
    pub fn get(&self, log_id: u128) -> (found: ApiResult<TaskLog>)
        ensures
            result_view(found) == found_log(self@, log_id),
            found is Ok <==> self@.contains_key(log_id),
    {
        match self.logs.get(&log_id) {
            Some(log) => Ok(log.clone()),
            None => Err(ApiError::not_found("log not found")),
        }
    }

    /// Revises the log named `log_id`, if it is present, and returns it as
    /// it then stands.
    pub fn update(&mut self, log_id: u128, payload: CreateTaskLog, now: Timestamp) -> (revised:
        ApiResult<TaskLog>)
        requires
            old(self).wf(),
        ensures
            final(self).wf(),
            result_view(revised) == revise_outcome(old(self)@, log_id, payload@, now),
            revised is Ok <==> old(self)@.contains_key(log_id),
            revised matches Ok(log) ==> duration_is_derived(log@),
            final(self)@ == logs_after_revise(old(self)@, log_id, payload@, now),
    {
        let mut log = match self.get(log_id) {
            Ok(log) => log,
            Err(e) => {
                return Err(e);
            },
        };
        match payload.start_at {
            Some(start) => {
                log.start_at = start;
            },
            None => {},
        }
        match payload.end_at {
            Some(end) => {
                log.end_at = Some(end);
            },
            None => {},
        }
        log.duration_min = match log.end_at {
            Some(end) => Some(TaskLog::calculate_duration(log.start_at, end)),
            None => None,
        };
        match payload.memo {
            Some(text) => {
                log.memo = Some(text);
            },
            None => {},
        }
        log.updated_at = now;
        let stored = log.clone();
        self.logs.insert(log_id, stored);
        assert(self@ =~= old(self)@.insert(log_id, log@));
        Ok(log)
    }

    /// Removes the log named `log_id`, if it is present.
    pub fn delete(&mut self, log_id: u128) -> (removed: ApiResult<()>)
        requires
            old(self).wf(),
        ensures
            final(self).wf(),
            result_view(removed) == remove_outcome(old(self)@, log_id),
            removed is Ok <==> old(self)@.contains_key(log_id),
            final(self)@ == old(self)@.remove(log_id),
    {
        let taken = self.logs.remove(&log_id);
        assert(self@ =~= old(self)@.remove(log_id));
        match taken {
            Some(_) => Ok(()),
            None => Err(ApiError::not_found("log not found")),
        }
    }

    /// The logs that were made for the task `task_id`, in no particular
    /// order, provided that the task is present and not deleted.
    pub fn list_for_task(&self, tasks: &TaskRepository, task_id: u128) -> (listed: ApiResult<
        Vec<TaskLog>,
    >)
        requires
            self.wf(),
        ensures
            lists_for_task(listed, tasks@, self@, task_id),
    {
        if !tasks.is_active(task_id) {
            return Err(ApiError::not_found("task not found"));
        }
        let mut found: Vec<TaskLog> = Vec::new();
        let ghost all = self.logs.iter().remaining();
        let ghost mut picked: Seq<int> = Seq::empty();
        for entry in it: self.logs.iter()
            invariant
                it.seq() == all,
                found.len() == picked.len(),
                forall|k: int|
                    0 <= k < picked.len() ==> 0 <= #[trigger] picked[k] < it.index()
                        && found[k]@ == (*all[picked[k]].1)@ && found[k].task_id == task_id,
                forall|k: int, l: int|
                    0 <= k < l < picked.len() ==> #[trigger] picked[k] < #[trigger] picked[l],
                forall|j: int|
                    0 <= j < it.index() && (#[trigger] all[j]).1.task_id == task_id ==> exists|
                        k: int,
                    | 0 <= k < picked.len() && #[trigger] picked[k] == j,
        {
            if entry.1.task_id == task_id {
                found.push(entry.1.clone());
                proof {
                    let earlier = picked;
                    picked = picked.push(it.index());
                    assert forall|j: int|
                        0 <= j < it.index() + 1 && (#[trigger] all[j]).1.task_id
                            == task_id implies exists|k: int|
                        0 <= k < picked.len() && #[trigger] picked[k] == j by {
                        if j < it.index() {
                            let k = choose|k: int|
                                0 <= k < earlier.len() && #[trigger] earlier[k] == j;
                            assert(picked[k] == j);
                        } else {
                            assert(picked[picked.len() - 1] == j);
                        }
                    }
                }
            }
        }
        proof {
            let items = log_views(found@);
            assert forall|i: int| 0 <= i < items.len() implies self@.contains_key(
                #[trigger] items[i].id,
            ) && self@[items[i].id] == items[i] && items[i].task_id == task_id by {
                let key = *all[picked[i]].0;
                assert(self.logs@.contains_key(key));
                assert(self@.contains_key(key));
            }
            assert forall|id: u128|
                #![trigger self@[id]]
                self@.contains_key(id) && self@[id].task_id == task_id implies exists|i: int|
                0 <= i < items.len() && #[trigger] items[i] == self@[id] by {
                assert(self.logs@.contains_key(id));
                assert(all.contains((&id, &self.logs@[id])));
                let j = choose|j: int| 0 <= j < all.len() && all[j] == (&id, &self.logs@[id]);
                assert(all[j].1.task_id == task_id);
                let k = choose|k: int| 0 <= k < picked.len() && #[trigger] picked[k] == j;
                assert(items[k] == self@[id]);
            }
            assert forall|i: int, j: int| 0 <= i < j < items.len() implies (#[trigger] items[i]).id
                != (#[trigger] items[j]).id by {
                let ki = *all[picked[i]].0;
                let kj = *all[picked[j]].0;
                assert(self.logs@.contains_key(ki));
                assert(self.logs@.contains_key(kj));
                assert(self@.contains_key(ki));
                assert(self@.contains_key(kj));
                assert(picked[i] < picked[j]);
                if ki == kj {
                    assert(all[picked[i]] == all[picked[j]]);
                }
            }
        }
        Ok(found)
    }
}

} // verus!

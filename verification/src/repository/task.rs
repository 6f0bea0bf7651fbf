//! The task repository: every task ever created, keyed by its identifier.
//! A deleted task stays in the repository, marked inactive, and from then
//! on behaves as if it were absent.

use std::collections::HashMap;
use vstd::prelude::*;
use vstd::std_specs::iter::IteratorSpec;

use crate::clock::Timestamp;
use crate::errors::{ApiError, ApiErrorView};
use crate::models::task::{opt_text, Task, TaskView};
use crate::utils::{result_view, ApiResult};

verus! {

broadcast use vstd::std_specs::hash::group_hash_axioms;

/// A task that is present and has not been deleted.
pub open spec fn task_is_active(tasks: Map<u128, TaskView>, id: u128) -> bool {
    tasks.contains_key(id) && tasks[id].is_active
}

/// The error for a task that is absent or deleted. The two cases are not
/// told apart.
pub open spec fn task_not_found() -> ApiErrorView {
    ApiErrorView::NotFound("task not found"@)
}

/// Every task is stored under its own identifier.
pub open spec fn tasks_keyed_by_id(tasks: Map<u128, TaskView>) -> bool {
    forall|id: u128| #[trigger] tasks.contains_key(id) ==> tasks[id].id == id
}

/// The task that `create` makes.
pub open spec fn created_task(
    id: u128,
    title: Seq<char>,
    description: Option<Seq<char>>,
    now: Timestamp,
) -> TaskView {
    TaskView { id, title, description, is_active: true, created_at: now, updated_at: now }
}

/// The task `task` after an update: the title is replaced, the description
/// is replaced where one is given and kept where none is.
pub open spec fn rewritten_task(
    task: TaskView,
    title: Seq<char>,
    description: Option<Seq<char>>,
    now: Timestamp,
) -> TaskView {
    TaskView {
        title,
        description: if description is Some {
            description
        } else {
            task.description
        },
        updated_at: now,
        ..task
    }
}

/// The task `task` after its deletion.
pub open spec fn deactivated_task(task: TaskView, now: Timestamp) -> TaskView {
    TaskView { is_active: false, updated_at: now, ..task }
}

/// What looking up `id` gives.
pub open spec fn found_task(tasks: Map<u128, TaskView>, id: u128) -> Result<
    TaskView,
    ApiErrorView,
> {
    if task_is_active(tasks, id) {
        Ok(tasks[id])
    } else {
        Err(task_not_found())
    }
}

/// The repository after `create`.
pub open spec fn tasks_after_create(
    tasks: Map<u128, TaskView>,
    id: u128,
    title: Seq<char>,
    description: Option<Seq<char>>,
    now: Timestamp,
) -> Map<u128, TaskView> {
    tasks.insert(id, created_task(id, title, description, now))
}

/// What `update_active` returns.
pub open spec fn update_outcome(
    tasks: Map<u128, TaskView>,
    id: u128,
    title: Seq<char>,
    description: Option<Seq<char>>,
    now: Timestamp,
) -> Result<TaskView, ApiErrorView> {
    if task_is_active(tasks, id) {
        Ok(rewritten_task(tasks[id], title, description, now))
    } else {
        Err(task_not_found())
    }
}

/// The repository after `update_active`.
pub open spec fn tasks_after_update(
    tasks: Map<u128, TaskView>,
    id: u128,
    title: Seq<char>,
    description: Option<Seq<char>>,
    now: Timestamp,
) -> Map<u128, TaskView> {
    if task_is_active(tasks, id) {
        tasks.insert(id, rewritten_task(tasks[id], title, description, now))
    } else {
        tasks
    }
}

/// What `soft_delete` returns.
pub open spec fn delete_outcome(tasks: Map<u128, TaskView>, id: u128) -> Result<(), ApiErrorView> {
    if task_is_active(tasks, id) {
        Ok(())
    } else {
        Err(task_not_found())
    }
}

/// The repository after `soft_delete`.
pub open spec fn tasks_after_delete(tasks: Map<u128, TaskView>, id: u128, now: Timestamp) -> Map<
    u128,
    TaskView,
> {
    if task_is_active(tasks, id) {
        tasks.insert(id, deactivated_task(tasks[id], now))
    } else {
        tasks
    }
}

/// `items` holds the active tasks of `tasks`, each of them once, in any
/// order, and nothing else.
pub open spec fn lists_active_tasks(items: Seq<TaskView>, tasks: Map<u128, TaskView>) -> bool {
    &&& forall|i: int|
        0 <= i < items.len() ==> task_is_active(tasks, #[trigger] items[i].id)
            && tasks[items[i].id] == items[i]
    &&& forall|id: u128| #[trigger]
        task_is_active(tasks, id) ==> exists|i: int|
            0 <= i < items.len() && #[trigger] items[i] == tasks[id]
    &&& forall|i: int, j: int|
        0 <= i < j < items.len() ==> (#[trigger] items[i]).id != (#[trigger] items[j]).id
}

/// The views of a run of tasks.
pub open spec fn task_views(tasks: Seq<Task>) -> Seq<TaskView> {
    Seq::new(tasks.len(), |i: int| tasks[i]@)
}

/// A task that was just created is found under its identifier, equal in
/// every field to the task that `create` returned.
pub proof fn lemma_created_task_is_found(
    tasks: Map<u128, TaskView>,
    id: u128,
    title: Seq<char>,
    description: Option<Seq<char>>,
    now: Timestamp,
)
    ensures
        found_task(tasks_after_create(tasks, id, title, description, now), id) == Ok::<
            TaskView,
            ApiErrorView,
        >(created_task(id, title, description, now)),
{
}

/// Once a task has been deleted, it cannot be looked up, rewritten or
/// deleted again: each of the three reports it missing and leaves the
/// repository as it is.
pub proof fn lemma_deleted_task_is_gone(
    tasks: Map<u128, TaskView>,
    id: u128,
    deleted_at: Timestamp,
    title: Seq<char>,
    description: Option<Seq<char>>,
    later: Timestamp,
)
    requires
        delete_outcome(tasks, id) is Ok,
    ensures
        ({
            let after = tasks_after_delete(tasks, id, deleted_at);
            &&& found_task(after, id) == Err::<TaskView, ApiErrorView>(task_not_found())
            &&& update_outcome(after, id, title, description, later) == Err::<
                TaskView,
                ApiErrorView,
            >(task_not_found())
            &&& tasks_after_update(after, id, title, description, later) == after
            &&& delete_outcome(after, id) == Err::<(), ApiErrorView>(task_not_found())
            &&& tasks_after_delete(after, id, later) == after
        }),
{
}

/// A deleted task is never active again: no update and no deletion, of
/// that task or of another, brings it back, and neither does the creation
/// of a task under another identifier.
pub proof fn lemma_inactive_task_stays_inactive(
    tasks: Map<u128, TaskView>,
    id: u128,
    other: u128,
    title: Seq<char>,
    description: Option<Seq<char>>,
    now: Timestamp,
)
    requires
        tasks.contains_key(id),
        !tasks[id].is_active,
    ensures
        !task_is_active(tasks_after_update(tasks, other, title, description, now), id),
        !task_is_active(tasks_after_delete(tasks, other, now), id),
        other != id ==> !task_is_active(
            tasks_after_create(tasks, other, title, description, now),
            id,
        ),
{
}

/// No operation removes a task from the repository, and each keeps every
/// task under its own identifier.
pub proof fn lemma_tasks_are_kept(
    tasks: Map<u128, TaskView>,
    id: u128,
    other: u128,
    title: Seq<char>,
    description: Option<Seq<char>>,
    now: Timestamp,
)
    requires
        tasks_keyed_by_id(tasks),
        tasks.contains_key(id),
    ensures
        tasks_after_create(tasks, other, title, description, now).contains_key(id),
        tasks_after_update(tasks, other, title, description, now).contains_key(id),
        tasks_after_delete(tasks, other, now).contains_key(id),
        tasks_keyed_by_id(tasks_after_create(tasks, other, title, description, now)),
        tasks_keyed_by_id(tasks_after_update(tasks, other, title, description, now)),
        tasks_keyed_by_id(tasks_after_delete(tasks, other, now)),
{
}

/// The tasks, each stored under its identifier.
pub struct TaskRepository {
    tasks: HashMap<u128, Task>,
}

impl View for TaskRepository {
    type V = Map<u128, TaskView>;

    closed spec fn view(&self) -> Map<u128, TaskView> {
        self.tasks@.map_values(|t: Task| t@)
    }
}

impl TaskRepository {
    /// The repository's invariant: every task is stored under its own
    /// identifier.
    pub open spec fn wf(&self) -> bool {
        tasks_keyed_by_id(self@)
    }

    pub fn new() -> (repo: Self)
        ensures
            repo@ == Map::<u128, TaskView>::empty(),
            repo.wf(),
    {
        let repo = TaskRepository { tasks: HashMap::new() };
        assert(repo@ =~= Map::<u128, TaskView>::empty());
        repo
    }

    /// Stores a new active task under `id`. A task already stored under
    /// `id` is replaced.
    pub fn create(
        &mut self,
        id: u128,
        title: String,
        description: Option<String>,
        now: Timestamp,
    ) -> (task: Task)
        requires
            old(self).wf(),
        ensures
            final(self).wf(),
            task@ == created_task(id, title@, opt_text(description), now),
            task@.is_active,
            task@.created_at == task@.updated_at,
            final(self)@ == tasks_after_create(old(self)@, id, title@, opt_text(description), now),
    {
        let task = Task { id, title, description, is_active: true, created_at: now, updated_at: now };
        let stored = task.clone();
        self.tasks.insert(id, stored);
        assert(self@ =~= old(self)@.insert(id, task@));
        task
    }

    /// Tells whether `id` names a task that is present and not deleted.
    pub fn is_active(&self, id: u128) -> (active: bool)
        ensures
            active == task_is_active(self@, id),
    {
        match self.tasks.get(&id) {
            Some(task) => task.is_active,
            None => false,
        }
    }

    /// The task named `id`, if it is present and not deleted.
    pub fn get_active(&self, id: u128) -> (found: ApiResult<Task>)
        ensures
            result_view(found) == found_task(self@, id),
            found is Ok <==> task_is_active(self@, id),
    {
        match self.tasks.get(&id) {
            Some(task) => {
                if task.is_active {
                    Ok(task.clone())
                } else {
                    Err(ApiError::not_found("task not found"))
                }
            },
            None => Err(ApiError::not_found("task not found")),
        }
    }

    /// Rewrites the task named `id`, if it is present and not deleted, and
    /// returns it as it then stands.
    pub fn update_active(
        &mut self,
        id: u128,
        title: String,
        description: Option<String>,
        now: Timestamp,
    ) -> (updated: ApiResult<Task>)
        requires
            old(self).wf(),
        ensures
            final(self).wf(),
            result_view(updated) == update_outcome(
                old(self)@,
                id,
                title@,
                opt_text(description),
                now,
            ),
            updated is Ok <==> task_is_active(old(self)@, id),
            final(self)@ == tasks_after_update(old(self)@, id, title@, opt_text(description), now),
    {
        let mut task = match self.get_active(id) {
            Ok(task) => task,
            Err(e) => {
                return Err(e);
            },
        };
        task.title = title;
        match description {
            Some(text) => {
                task.description = Some(text);
            },
            None => {},
        }
        task.updated_at = now;
        let stored = task.clone();
        self.tasks.insert(id, stored);
        assert(self@ =~= old(self)@.insert(id, task@));
        Ok(task)
    }

    /// Deletes the task named `id`, if it is present and not yet deleted:
    /// the task stays stored and is marked inactive.
    pub fn soft_delete(&mut self, id: u128, now: Timestamp) -> (deleted: ApiResult<()>)
        requires
            old(self).wf(),
        ensures
            final(self).wf(),
            result_view(deleted) == delete_outcome(old(self)@, id),
            deleted is Ok <==> task_is_active(old(self)@, id),
            final(self)@ == tasks_after_delete(old(self)@, id, now),
            deleted is Ok ==> !task_is_active(final(self)@, id),
    {
        let mut task = match self.get_active(id) {
            Ok(task) => task,
            Err(e) => {
                return Err(e);
            },
        };
        task.is_active = false;
        task.updated_at = now;
        let ghost marked = task@;
        self.tasks.insert(id, task);
        assert(self@ =~= old(self)@.insert(id, marked));
        Ok(())
    }

    /// The tasks that are present and not deleted, in no particular order.
    pub fn list_active(&self) -> (active: Vec<Task>)
        requires
            self.wf(),
        ensures
            lists_active_tasks(task_views(active@), self@),
    {
        let mut active: Vec<Task> = Vec::new();
        let ghost all = self.tasks.iter().remaining();
        let ghost mut picked: Seq<int> = Seq::empty();
        for entry in it: self.tasks.iter()
            invariant
                it.seq() == all,
                active.len() == picked.len(),
                forall|k: int|
                    0 <= k < picked.len() ==> 0 <= #[trigger] picked[k] < it.index()
                        && active[k]@ == (*all[picked[k]].1)@ && active[k].is_active,
                forall|k: int, l: int|
                    0 <= k < l < picked.len() ==> #[trigger] picked[k] < #[trigger] picked[l],
                forall|j: int|
                    0 <= j < it.index() && (#[trigger] all[j]).1.is_active ==> exists|k: int|
                        0 <= k < picked.len() && #[trigger] picked[k] == j,
        {
            if entry.1.is_active {
                active.push(entry.1.clone());
                proof {
                    let earlier = picked;
                    picked = picked.push(it.index());
                    assert forall|j: int|
                        0 <= j < it.index() + 1 && (#[trigger] all[j]).1.is_active implies exists|
                        k: int,
                    | 0 <= k < picked.len() && #[trigger] picked[k] == j by {
                        if j < it.index() {
                            let k = choose|k: int|
                                0 <= k < earlier.len() && #[trigger] earlier[k] == j;
                            assert(picked[k] == j);
                        } else {
                            assert(picked[picked.len() - 1] == j);
                        }
                    }
                }
            }
        }
        proof {
            let items = task_views(active@);
            assert forall|i: int| 0 <= i < items.len() implies task_is_active(
                self@,
                #[trigger] items[i].id,
            ) && self@[items[i].id] == items[i] by {
                let key = *all[picked[i]].0;
                assert(self.tasks@.contains_key(key));
                assert(self@.contains_key(key));
            }
            assert forall|id: u128| #[trigger] task_is_active(self@, id) implies exists|i: int|
                0 <= i < items.len() && #[trigger] items[i] == self@[id] by {
                assert(self.tasks@.contains_key(id));
                assert(all.contains((&id, &self.tasks@[id])));
                let j = choose|j: int| 0 <= j < all.len() && all[j] == (&id, &self.tasks@[id]);
                assert(all[j].1.is_active);
                let k = choose|k: int| 0 <= k < picked.len() && #[trigger] picked[k] == j;
                assert(items[k] == self@[id]);
            }
            assert forall|i: int, j: int| 0 <= i < j < items.len() implies (#[trigger] items[i]).id
                != (#[trigger] items[j]).id by {
                let ki = *all[picked[i]].0;
                let kj = *all[picked[j]].0;
                assert(self.tasks@.contains_key(ki));
                assert(self.tasks@.contains_key(kj));
                assert(self@.contains_key(ki));
                assert(self@.contains_key(kj));
                assert(picked[i] < picked[j]);
                if ki == kj {
                    assert(all[picked[i]] == all[picked[j]]);
                }
            }
        }
        active
    }
}

} // verus!

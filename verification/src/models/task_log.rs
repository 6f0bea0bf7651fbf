//! Work logs: time-boxed records of work done on a task.

use vstd::prelude::*;

use crate::clock::{minutes_between, now, Timestamp, NANOS_PER_MINUTE, NANOS_PER_SECOND};
use crate::models::task::{clone_opt_text, opt_text};

verus! {

/// An optional count of minutes, as a mathematical integer.
pub open spec fn opt_minutes(minutes: Option<i64>) -> Option<int> {
    match minutes {
        Some(m) => Some(m as int),
        None => None,
    }
}

/// The duration of a log: the whole minutes from its start to its end,
/// rounded towards negative infinity, and none while the log has no end.
pub open spec fn duration_of(start_at: Timestamp, end_at: Option<Timestamp>) -> Option<int> {
    match end_at {
        Some(end) => Some(minutes_between(start_at, end)),
        None => None,
    }
}

/// A record of work done on a task.
#[derive(Debug, PartialEq, Eq)]
pub struct TaskLog {
    pub id: u128,
    pub task_id: u128,
    pub start_at: Timestamp,
    pub end_at: Option<Timestamp>,
    pub duration_min: Option<i64>,
    pub memo: Option<String>,
    pub created_at: Timestamp,
    pub updated_at: Timestamp,
}

/// What a `TaskLog` holds, as mathematical values.
pub struct TaskLogView {
    pub id: u128,
    pub task_id: u128,
    pub start_at: Timestamp,
    pub end_at: Option<Timestamp>,
    pub duration_min: Option<int>,
    pub memo: Option<Seq<char>>,
    pub created_at: Timestamp,
    pub updated_at: Timestamp,
}

impl View for TaskLog {
    type V = TaskLogView;

    open spec fn view(&self) -> TaskLogView {
        TaskLogView {
            id: self.id,
            task_id: self.task_id,
            start_at: self.start_at,
            end_at: self.end_at,
            duration_min: opt_minutes(self.duration_min),
            memo: opt_text(self.memo),
            created_at: self.created_at,
            updated_at: self.updated_at,
        }
    }
}

/// A log whose duration is the one that its start and end give.
pub open spec fn duration_is_derived(log: TaskLogView) -> bool {
    log.duration_min == duration_of(log.start_at, log.end_at)
}

/// The log `log` once it has ended at `end`, the change made at `now`.
pub open spec fn ended_log(log: TaskLogView, end: Timestamp, now: Timestamp) -> TaskLogView {
    TaskLogView {
        end_at: Some(end),
        duration_min: Some(minutes_between(log.start_at, end)),
        updated_at: now,
        ..log
    }
}

impl Clone for TaskLog {
    fn clone(&self) -> (copy: Self)
        ensures
            copy@ == self@,
    {
        TaskLog {
            id: self.id,
            task_id: self.task_id,
            start_at: self.start_at,
            end_at: self.end_at,
            duration_min: self.duration_min,
            memo: clone_opt_text(&self.memo),
            created_at: self.created_at,
            updated_at: self.updated_at,
        }
    }
}

impl TaskLog {
    /// The whole minutes from `start` to `end`: the largest count of
    /// minutes that, added to `start`, does not pass `end`. It is negative
    /// where `end` lies before `start`.
    pub fn calculate_duration(start: Timestamp, end: Timestamp) -> (minutes: i64)
        ensures
            minutes == minutes_between(start, end),
            minutes * NANOS_PER_MINUTE <= end.total_nanos() - start.total_nanos(),
            end.total_nanos() - start.total_nanos() < (minutes + 1) * NANOS_PER_MINUTE,
    {
        let secs: i128 = end.secs as i128 - start.secs as i128;
        let diff: i128 = secs * NANOS_PER_SECOND + (end.nanos as i128 - start.nanos as i128);
        let floor: i128 = if diff >= 0 {
            diff / NANOS_PER_MINUTE
        } else {
            -((NANOS_PER_MINUTE - 1 - diff) / NANOS_PER_MINUTE)
        };
        floor as i64
    }

    /// Ends the log at `end` and derives its duration, the change made at
    /// `now`.
    pub fn set_end_time_at(&mut self, end: Timestamp, now: Timestamp)
        ensures
            final(self)@ == ended_log(old(self)@, end, now),
            duration_is_derived(final(self)@),
    {
        self.end_at = Some(end);
        self.duration_min = Some(Self::calculate_duration(self.start_at, end));
        self.updated_at = now;
    }

    /// Ends the log at `end` and derives its duration. The change is made
    /// at the instant the clock gives, whichever that is.
    pub fn set_end_time(&mut self, end: Timestamp)
        ensures
            final(self)@ == ended_log(old(self)@, end, final(self)@.updated_at),
            duration_is_derived(final(self)@),
    {
        let at = now();
        self.set_end_time_at(end, at);
    }
}

/// The payload that creates or revises a log. A field left out keeps its
/// default on creation and its earlier value on revision.
#[derive(Debug)]
pub struct CreateTaskLog {
    pub start_at: Option<Timestamp>,
    pub end_at: Option<Timestamp>,
    pub memo: Option<String>,
}

/// What a `CreateTaskLog` holds, as mathematical values.
pub struct CreateTaskLogView {
    pub start_at: Option<Timestamp>,
    pub end_at: Option<Timestamp>,
    pub memo: Option<Seq<char>>,
}

impl View for CreateTaskLog {
    type V = CreateTaskLogView;

    open spec fn view(&self) -> CreateTaskLogView {
        CreateTaskLogView {
            start_at: self.start_at,
            end_at: self.end_at,
            memo: opt_text(self.memo),
        }
    }
}

} // verus!

use taskio_server::clock::Timestamp;
use taskio_server::errors::ApiError;
use taskio_server::models::task_log::{CreateTaskLog, TaskLog};
use taskio_server::repository::task::TaskRepository;
use taskio_server::repository::task_log::TaskLogRepository;

fn at(secs: i64) -> Timestamp {
    Timestamp { secs, nanos: 0 }
}

fn task_missing() -> ApiError {
    ApiError::NotFound("task not found".to_string())
}

fn log_missing() -> ApiError {
    ApiError::NotFound("log not found".to_string())
}

fn payload(start: Option<i64>, end: Option<i64>, memo: Option<&str>) -> CreateTaskLog {
    CreateTaskLog {
        start_at: start.map(at),
        end_at: end.map(at),
        memo: memo.map(|m| m.to_string()),
    }
}

fn one_task() -> TaskRepository {
    let mut tasks = TaskRepository::new();
    tasks.create(7, "task".to_string(), None, at(10));
    tasks
}

fn ids(logs: &[TaskLog]) -> Vec<u128> {
    let mut ids: Vec<u128> = logs.iter().map(|l| l.id).collect();
    ids.sort();
    ids
}

#[test]
fn a_log_with_start_and_end_has_its_duration() {
    let tasks = one_task();
    let mut logs = TaskLogRepository::new();
    let log = logs
        .create_for_task(&tasks, 1, 7, payload(Some(36_000), Some(38_700), Some("draft")), at(50_000))
        .unwrap();
    assert_eq!(
        log,
        TaskLog {
            id: 1,
            task_id: 7,
            start_at: at(36_000),
            end_at: Some(at(38_700)),
            duration_min: Some(45),
            memo: Some("draft".to_string()),
            created_at: at(50_000),
            updated_at: at(50_000),
        }
    );
    assert_eq!(logs.get(1), Ok(log));
}

#[test]
fn a_log_without_start_starts_now() {
    let tasks = one_task();
    let mut logs = TaskLogRepository::new();
    let log = logs.create_for_task(&tasks, 1, 7, payload(None, None, None), at(50_000)).unwrap();
    assert_eq!(log.start_at, at(50_000));
    assert_eq!(log.end_at, None);
    assert_eq!(log.duration_min, None);
    assert_eq!(log.memo, None);
    assert_eq!(log.created_at, at(50_000));
    assert_eq!(log.updated_at, at(50_000));
}

#[test]
fn a_log_without_start_measures_from_now() {
    let tasks = one_task();
    let mut logs = TaskLogRepository::new();
    let log =
        logs.create_for_task(&tasks, 1, 7, payload(None, Some(50_000 + 600), None), at(50_000)).unwrap();
    assert_eq!(log.start_at, at(50_000));
    assert_eq!(log.duration_min, Some(10));
}

#[test]
fn an_end_before_the_start_is_accepted() {
    let tasks = one_task();
    let mut logs = TaskLogRepository::new();
    let log = logs
        .create_for_task(&tasks, 1, 7, payload(Some(1_000), Some(1_000 - 90), None), at(50_000))
        .unwrap();
    assert_eq!(log.duration_min, Some(-2));
    assert_eq!(log.end_at, Some(at(910)));
}

#[test]
fn no_log_for_an_unknown_task() {
    let tasks = one_task();
    let mut logs = TaskLogRepository::new();
    assert_eq!(
        logs.create_for_task(&tasks, 1, 8, payload(None, None, None), at(50_000)),
        Err(task_missing())
    );
    assert_eq!(logs.get(1), Err(log_missing()));
}

#[test]
fn no_log_for_a_deleted_task() {
    let mut tasks = one_task();
    tasks.soft_delete(7, at(20)).unwrap();
    let mut logs = TaskLogRepository::new();
    assert_eq!(
        logs.create_for_task(&tasks, 1, 7, payload(None, None, None), at(50_000)),
        Err(task_missing())
    );
    assert_eq!(logs.get(1), Err(log_missing()));
    assert_eq!(logs.list_for_task(&tasks, 7), Err(task_missing()));
}

#[test]
fn a_log_outlives_its_task() {
    let mut tasks = one_task();
    let mut logs = TaskLogRepository::new();
    let log = logs.create_for_task(&tasks, 1, 7, payload(Some(0), None, None), at(50_000)).unwrap();
    tasks.soft_delete(7, at(60_000)).unwrap();
    assert_eq!(logs.get(1), Ok(log));
    let revised = logs.update(1, payload(None, Some(120), None), at(70_000)).unwrap();
    assert_eq!(revised.duration_min, Some(2));
    assert_eq!(logs.list_for_task(&tasks, 7), Err(task_missing()));
    assert_eq!(logs.delete(1), Ok(()));
}

#[test]
fn an_unknown_log_is_not_found() {
    let mut logs = TaskLogRepository::new();
    assert_eq!(logs.get(1), Err(log_missing()));
    assert_eq!(logs.update(1, payload(None, None, None), at(1)), Err(log_missing()));
    assert_eq!(logs.delete(1), Err(log_missing()));
}

#[test]
fn a_new_end_gives_a_new_duration() {
    let tasks = one_task();
    let mut logs = TaskLogRepository::new();
    logs.create_for_task(&tasks, 1, 7, payload(Some(0), Some(600), Some("m")), at(50_000)).unwrap();
    let revised = logs.update(1, payload(None, Some(1_800), None), at(60_000)).unwrap();
    assert_eq!(
        revised,
        TaskLog {
            id: 1,
            task_id: 7,
            start_at: at(0),
            end_at: Some(at(1_800)),
            duration_min: Some(30),
            memo: Some("m".to_string()),
            created_at: at(50_000),
            updated_at: at(60_000),
        }
    );
    assert_eq!(logs.get(1), Ok(revised));
}

#[test]
fn a_new_start_gives_a_new_duration() {
    let tasks = one_task();
    let mut logs = TaskLogRepository::new();
    logs.create_for_task(&tasks, 1, 7, payload(Some(0), Some(3_600), None), at(50_000)).unwrap();
    let revised = logs.update(1, payload(Some(1_800), None, None), at(60_000)).unwrap();
    assert_eq!(revised.start_at, at(1_800));
    assert_eq!(revised.end_at, Some(at(3_600)));
    assert_eq!(revised.duration_min, Some(30));
}

#[test]
fn a_new_start_and_end_are_measured_together() {
    let tasks = one_task();
    let mut logs = TaskLogRepository::new();
    logs.create_for_task(&tasks, 1, 7, payload(Some(0), Some(60), None), at(50_000)).unwrap();
    let revised = logs.update(1, payload(Some(6_000), Some(6_000 + 7 * 60), None), at(60_000)).unwrap();
    assert_eq!(revised.duration_min, Some(7));
}

#[test]
fn a_new_start_without_any_end_leaves_no_duration() {
    let tasks = one_task();
    let mut logs = TaskLogRepository::new();
    logs.create_for_task(&tasks, 1, 7, payload(Some(0), None, None), at(50_000)).unwrap();
    let revised = logs.update(1, payload(Some(1_800), None, None), at(60_000)).unwrap();
    assert_eq!(revised.start_at, at(1_800));
    assert_eq!(revised.end_at, None);
    assert_eq!(revised.duration_min, None);
}

#[test]
fn a_revision_without_memo_keeps_the_memo() {
    let tasks = one_task();
    let mut logs = TaskLogRepository::new();
    logs.create_for_task(&tasks, 1, 7, payload(Some(0), None, Some("kept")), at(50_000)).unwrap();
    let revised = logs.update(1, payload(None, None, None), at(60_000)).unwrap();
    assert_eq!(revised.memo, Some("kept".to_string()));
    assert_eq!(revised.updated_at, at(60_000));
    assert_eq!(revised.start_at, at(0));
}

#[test]
fn a_revision_with_an_empty_memo_replaces_the_memo() {
    let tasks = one_task();
    let mut logs = TaskLogRepository::new();
    logs.create_for_task(&tasks, 1, 7, payload(Some(0), None, Some("old")), at(50_000)).unwrap();
    let revised = logs.update(1, payload(None, None, Some("")), at(60_000)).unwrap();
    assert_eq!(revised.memo, Some(String::new()));
    let again = logs.update(1, payload(None, None, Some("new")), at(70_000)).unwrap();
    assert_eq!(again.memo, Some("new".to_string()));
}

#[test]
fn a_removed_log_is_gone() {
    let tasks = one_task();
    let mut logs = TaskLogRepository::new();
    logs.create_for_task(&tasks, 1, 7, payload(None, None, None), at(50_000)).unwrap();
    let other = logs.create_for_task(&tasks, 2, 7, payload(None, None, None), at(50_000)).unwrap();
    assert_eq!(logs.delete(1), Ok(()));
    assert_eq!(logs.get(1), Err(log_missing()));
    assert_eq!(logs.delete(1), Err(log_missing()));
    assert_eq!(logs.get(2), Ok(other.clone()));
    assert_eq!(logs.list_for_task(&tasks, 7), Ok(vec![other]));
}

#[test]
fn the_listing_holds_the_logs_of_one_task() {
    let mut tasks = one_task();
    tasks.create(8, "other".to_string(), None, at(10));
    tasks.create(9, "idle".to_string(), None, at(10));
    let mut logs = TaskLogRepository::new();
    for id in 1..=12u128 {
        let task = if id % 3 == 0 { 8 } else { 7 };
        logs.create_for_task(&tasks, id, task, payload(Some(0), None, None), at(50_000)).unwrap();
    }
    let of_seven = logs.list_for_task(&tasks, 7).unwrap();
    assert_eq!(ids(&of_seven), vec![1, 2, 4, 5, 7, 8, 10, 11]);
    for log in &of_seven {
        assert_eq!(log.task_id, 7);
        assert_eq!(logs.get(log.id), Ok(log.clone()));
    }
    assert_eq!(ids(&logs.list_for_task(&tasks, 8).unwrap()), vec![3, 6, 9, 12]);
    assert_eq!(logs.list_for_task(&tasks, 9), Ok(vec![]));
    assert_eq!(logs.list_for_task(&tasks, 10), Err(task_missing()));
}

#[test]
fn creating_under_a_used_identifier_replaces_the_log() {
    let tasks = one_task();
    let mut logs = TaskLogRepository::new();
    logs.create_for_task(&tasks, 1, 7, payload(Some(0), None, Some("first")), at(50_000)).unwrap();
    let second =
        logs.create_for_task(&tasks, 1, 7, payload(Some(5), None, Some("second")), at(60_000)).unwrap();
    assert_eq!(logs.get(1), Ok(second.clone()));
    assert_eq!(logs.list_for_task(&tasks, 7), Ok(vec![second]));
}

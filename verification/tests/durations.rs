use taskio_server::clock::Timestamp;
use taskio_server::models::task_log::TaskLog;

fn at(secs: i64, nanos: u32) -> Timestamp {
    Timestamp { secs, nanos }
}

fn sample_log() -> TaskLog {
    TaskLog {
        id: 1,
        task_id: 2,
        start_at: at(1_000, 0),
        end_at: None,
        duration_min: None,
        memo: Some("memo".to_string()),
        created_at: at(1_000, 0),
        updated_at: at(1_000, 0),
    }
}

#[test]
fn forty_five_minutes() {
    // 2024-01-01T10:00:00Z to 2024-01-01T10:45:00Z
    assert_eq!(TaskLog::calculate_duration(at(1_704_103_200, 0), at(1_704_105_900, 0)), 45);
}

#[test]
fn no_time_is_no_minutes() {
    assert_eq!(TaskLog::calculate_duration(at(5, 7), at(5, 7)), 0);
}

#[test]
fn a_started_minute_does_not_count() {
    assert_eq!(TaskLog::calculate_duration(at(0, 0), at(59, 999_999_999)), 0);
    assert_eq!(TaskLog::calculate_duration(at(0, 0), at(60, 0)), 1);
    assert_eq!(TaskLog::calculate_duration(at(0, 0), at(119, 999_999_999)), 1);
    assert_eq!(TaskLog::calculate_duration(at(0, 1), at(60, 0)), 0);
    assert_eq!(TaskLog::calculate_duration(at(0, 1), at(60, 1)), 1);
}

#[test]
fn an_end_before_the_start_counts_down() {
    assert_eq!(TaskLog::calculate_duration(at(60, 0), at(0, 0)), -1);
    assert_eq!(TaskLog::calculate_duration(at(3_600, 0), at(0, 0)), -60);
}

#[test]
fn negative_durations_round_towards_negative_infinity() {
    assert_eq!(TaskLog::calculate_duration(at(90, 0), at(0, 0)), -2);
    assert_eq!(TaskLog::calculate_duration(at(1, 0), at(0, 0)), -1);
    assert_eq!(TaskLog::calculate_duration(at(0, 1), at(0, 0)), -1);
    assert_eq!(TaskLog::calculate_duration(at(60, 1), at(0, 0)), -2);
    assert_eq!(TaskLog::calculate_duration(at(120, 0), at(0, 1)), -2);
}

#[test]
fn instants_before_the_epoch() {
    assert_eq!(TaskLog::calculate_duration(at(-120, 0), at(0, 0)), 2);
    assert_eq!(TaskLog::calculate_duration(at(-61, 500_000_000), at(-1, 0)), 0);
    assert_eq!(TaskLog::calculate_duration(at(-61, 0), at(-1, 0)), 1);
}

#[test]
fn the_widest_spans_fit() {
    let first = at(i64::MIN, 0);
    let last = at(i64::MAX, u32::MAX);
    // (2^64 - 1) seconds and 4294967295 nanoseconds
    assert_eq!(TaskLog::calculate_duration(first, last), 307_445_734_561_825_860);
    assert_eq!(TaskLog::calculate_duration(last, first), -307_445_734_561_825_861);
}

#[test]
fn setting_the_end_derives_the_duration() {
    let mut log = sample_log();
    log.set_end_time_at(at(1_000 + 30 * 60 + 59, 0), at(5_000, 1));
    assert_eq!(log.end_at, Some(at(1_000 + 30 * 60 + 59, 0)));
    assert_eq!(log.duration_min, Some(30));
    assert_eq!(log.updated_at, at(5_000, 1));
    assert_eq!(log.start_at, at(1_000, 0));
    assert_eq!(log.created_at, at(1_000, 0));
    assert_eq!(log.memo, Some("memo".to_string()));
    assert_eq!(log.id, 1);
    assert_eq!(log.task_id, 2);
}

#[test]
fn setting_the_end_reads_the_clock() {
    let mut log = sample_log();
    log.set_end_time(at(1_000 + 120, 0));
    assert_eq!(log.end_at, Some(at(1_120, 0)));
    assert_eq!(log.duration_min, Some(2));
    // the clock of this machine runs after 2001
    assert!(log.updated_at.secs > 1_000_000_000);
    assert!(log.updated_at.nanos < 1_000_000_000);
    assert_eq!(log.start_at, at(1_000, 0));
}

#[test]
fn a_log_copy_keeps_every_field() {
    let mut log = sample_log();
    log.set_end_time_at(at(2_000, 0), at(3_000, 0));
    assert_eq!(log.clone(), log);
}

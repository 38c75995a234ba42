use rolling_file::filename::filename_for_index;
use rolling_file::rolling_condition::RollingCondition;
use rolling_file::rolling_condition_basic::RollingConditionBasicGeneric;
use rolling_file::rolling_file_appender_utc::RollingFileAppenderUtc;
use rolling_file::rolling_frequency::RollingFrequency;
use rolling_file::rotation::{rotation_actions, summarize_rotation, ActionOutcome, FsAction};
use rolling_file::system_clock::{Clock, SystemClock};
use rolling_file::timestamp::Timestamp;
use rolling_file::BasicRollingFileAppender;

fn ts(year: i32, month: u8, day: u8, hour: u8, minute: u8, second: u8) -> Timestamp {
    Timestamp::new(year, month, day, hour, minute, second)
}

fn build(condition: RollingConditionBasicGeneric, max_files: usize) -> BasicRollingFileAppender {
    RollingFileAppenderUtc::new(String::from("app.log"), condition, max_files)
}

#[test]
fn bucket_every_day() {
    let t = ts(2021, 3, 30, 1, 2, 3);
    let e = RollingFrequency::EveryDay.equivalent_datetime(&t);
    assert_eq!(e, ts(2021, 3, 30, 0, 0, 0));
}

#[test]
fn bucket_every_hour() {
    let t = ts(2021, 3, 30, 1, 2, 3);
    let e = RollingFrequency::EveryHour.equivalent_datetime(&t);
    assert_eq!(e, ts(2021, 3, 30, 1, 0, 0));
}

#[test]
fn bucket_every_minute() {
    let t = ts(2021, 3, 30, 1, 2, 3);
    let e = RollingFrequency::EveryMinute.equivalent_datetime(&t);
    assert_eq!(e, ts(2021, 3, 30, 1, 2, 0));
}

#[test]
fn condition_first_evaluation_skips_time_check() {
    let mut c = RollingConditionBasicGeneric::new().daily();
    // No previous timestamp: only a size threshold could trigger, and none
    // is set.
    assert_eq!(c.should_rollover(&ts(2021, 1, 1, 0, 0, 0), 1_000_000), false);
    // The timestamp was still recorded: a new day now triggers.
    assert_eq!(c.should_rollover(&ts(2021, 1, 2, 0, 0, 0), 0), true);
}

#[test]
fn condition_same_bucket_never_triggers() {
    let mut c = RollingConditionBasicGeneric::new().hourly();
    assert_eq!(c.should_rollover(&ts(2021, 3, 30, 14, 0, 0), 0), false);
    assert_eq!(c.should_rollover(&ts(2021, 3, 30, 14, 59, 59), 0), false);
    assert_eq!(c.should_rollover(&ts(2021, 3, 30, 15, 0, 0), 0), true);
}

#[test]
fn condition_size_threshold_exact() {
    let mut c = RollingConditionBasicGeneric::new().max_size(10);
    let t = ts(2021, 3, 30, 1, 2, 3);
    assert_eq!(c.should_rollover(&t, 9), false);
    assert_eq!(c.should_rollover(&t, 10), true);
    assert_eq!(c.should_rollover(&t, 11), true);
}

#[test]
fn condition_no_configuration_never_triggers() {
    let mut c = RollingConditionBasicGeneric::new();
    assert_eq!(c.should_rollover(&ts(2021, 1, 1, 0, 0, 0), u64::MAX), false);
    assert_eq!(c.should_rollover(&ts(2030, 1, 1, 0, 0, 0), u64::MAX), false);
}

#[test]
fn condition_default_is_daily() {
    let c = RollingConditionBasicGeneric::default();
    assert_eq!(c.frequency_opt, Some(RollingFrequency::EveryDay));
    assert_eq!(c.max_size_opt, None);
    let mut c = c;
    assert_eq!(c.should_rollover(&ts(2021, 1, 1, 5, 0, 0), 0), false);
    assert_eq!(c.should_rollover(&ts(2021, 1, 2, 5, 0, 0), 0), true);
}

#[test]
fn filename_series() {
    assert_eq!(filename_for_index("app.log", 0), "app.log");
    assert_eq!(filename_for_index("app.log", 1), "app.log.1");
    assert_eq!(filename_for_index("app.log", 12), "app.log.12");
    assert_eq!(filename_for_index("app.log", 105), "app.log.105");
    let c = build(RollingConditionBasicGeneric::new(), 3);
    assert_eq!(c.filename_for(0), "app.log");
    assert_eq!(c.filename_for(2), "app.log.2");
}

#[test]
fn rotation_plan_sequence() {
    let acts = rotation_actions(2);
    assert_eq!(
        acts,
        vec![
            FsAction::Delete { index: 2 },
            FsAction::Rename { from: 1, to: 2 },
            FsAction::Rename { from: 0, to: 1 },
        ]
    );
    // A zero retention count still keeps one backup.
    let acts = rotation_actions(0);
    assert_eq!(
        acts,
        vec![FsAction::Delete { index: 1 }, FsAction::Rename { from: 0, to: 1 }]
    );
}

#[test]
fn rotation_verdict_reports_last_rename_failure() {
    let actions = rotation_actions(3);
    // All steps fine: no error.
    let outcomes = vec![
        ActionOutcome::Succeeded,
        ActionOutcome::Missing,
        ActionOutcome::Succeeded,
        ActionOutcome::Succeeded,
    ];
    assert_eq!(summarize_rotation(&actions, &outcomes), None);
    // A failed eviction is ignored; missing rename sources are expected.
    let outcomes = vec![
        ActionOutcome::Failed,
        ActionOutcome::Missing,
        ActionOutcome::Missing,
        ActionOutcome::Succeeded,
    ];
    assert_eq!(summarize_rotation(&actions, &outcomes), None);
    // Of two failed renames, the last one encountered is reported.
    let outcomes = vec![
        ActionOutcome::Succeeded,
        ActionOutcome::Failed,
        ActionOutcome::Succeeded,
        ActionOutcome::Failed,
    ];
    assert_eq!(summarize_rotation(&actions, &outcomes), Some(3));
}

#[test]
fn flush_without_writer_is_a_no_op() {
    let mut c = build(RollingConditionBasicGeneric::new(), 3);
    c.write_with_datetime(b"abc", &ts(2021, 1, 1, 0, 0, 0));
    c.release_writer();
    assert!(c.writer_opt.is_none());
    // Flushing with no writer open succeeds and changes nothing.
    c.flush();
    c.flush();
    assert!(c.writer_opt.is_none());
    assert_eq!(c.current_filesize, 0);
    assert_eq!(file_bytes(&c, 0), b"abc".to_vec());
}

fn file_bytes(c: &BasicRollingFileAppender, n: usize) -> Vec<u8> {
    c.read_file(n).expect("file should exist").clone()
}

#[test]
fn forced_rollover_shifts_series() {
    let mut c = build(RollingConditionBasicGeneric::new(), 3);
    c.write_with_datetime(b"first", &ts(2021, 1, 1, 0, 0, 0));
    c.rollover();
    c.write_with_datetime(b"second", &ts(2021, 1, 1, 0, 0, 1));
    c.rollover();
    c.flush();
    assert_eq!(file_bytes(&c, 2), b"first".to_vec());
    assert_eq!(file_bytes(&c, 1), b"second".to_vec());
    assert_eq!(file_bytes(&c, 0), b"".to_vec());
}

#[test]
fn retention_evicts_oldest() {
    let mut c = build(RollingConditionBasicGeneric::new(), 2);
    c.write_with_datetime(b"one", &ts(2021, 1, 1, 0, 0, 0));
    c.rollover();
    c.write_with_datetime(b"two", &ts(2021, 1, 1, 0, 0, 1));
    c.rollover();
    c.write_with_datetime(b"three", &ts(2021, 1, 1, 0, 0, 2));
    c.rollover();
    c.flush();
    // "one" was evicted; only the two most recent backups remain.
    assert_eq!(file_bytes(&c, 2), b"two".to_vec());
    assert_eq!(file_bytes(&c, 1), b"three".to_vec());
    assert_eq!(file_bytes(&c, 0), b"".to_vec());
    assert!(c.read_file(3).is_none());
}

#[test]
fn size_recovered_after_release() {
    let mut c = build(RollingConditionBasicGeneric::new().max_size(10), 9);
    c.write_with_datetime(b"12345", &ts(2021, 3, 30, 1, 2, 3));
    assert_eq!(c.current_filesize, 5);
    c.release_writer();
    assert_eq!(c.current_filesize, 0);
    // The next write reopens the file and re-derives the size from the
    // on-disk length before appending.
    c.write_with_datetime(b"678", &ts(2021, 3, 30, 1, 2, 4));
    assert_eq!(c.current_filesize, 8);
    c.flush();
    assert_eq!(file_bytes(&c, 0), b"12345678".to_vec());
}

#[test]
fn write_with_system_clock_appends() {
    let mut c = build(RollingConditionBasicGeneric::new(), 3);
    let written = c.write(b"hello");
    assert_eq!(written, 5);
    c.flush();
    assert_eq!(file_bytes(&c, 0), b"hello".to_vec());
}

#[test]
fn system_clock_is_well_formed() {
    let t = SystemClock::now();
    assert!(t.month >= 1 && t.month <= 12);
    assert!(t.day >= 1 && t.day <= 31);
    assert!(t.hour < 24);
    assert!(t.minute < 60);
    assert!(t.second < 60);
    assert!(t.year >= 2020);
}

#[test]
fn write_returns_byte_count() {
    let mut c = build(RollingConditionBasicGeneric::new(), 3);
    let n = c.write_with_datetime(b"", &ts(2021, 1, 1, 0, 0, 0));
    assert_eq!(n, 0);
    let n = c.write_with_datetime(b"abcd", &ts(2021, 1, 1, 0, 0, 0));
    assert_eq!(n, 4);
    assert_eq!(c.current_filesize, 4);
}

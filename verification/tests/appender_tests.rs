use rolling_file::rolling_file_appender_utc::RollingFileAppenderUtc;
use rolling_file::rolling_frequency::RollingFrequency;
use rolling_file::timestamp::Timestamp;
use rolling_file::{BasicRollingFileAppender, RollingConditionBasic};

fn ts(year: i32, month: u8, day: u8, hour: u8, minute: u8, second: u8) -> Timestamp {
    Timestamp::new(year, month, day, hour, minute, second)
}

fn build(condition: RollingConditionBasic, max_files: usize) -> BasicRollingFileAppender {
    RollingFileAppenderUtc::new(String::from("test-basic.log"), condition, max_files)
}

fn file_string(rolling: &BasicRollingFileAppender, n: usize) -> String {
    match rolling.read_file(n) {
        Some(content) => String::from_utf8(content.clone()).unwrap(),
        None => panic!("file {} does not exist", n),
    }
}

fn verify_contains(rolling: &mut BasicRollingFileAppender, needle: &str, n: usize) {
    rolling.flush();
    let haystack = file_string(rolling, n);
    if !haystack.contains(needle) {
        panic!("file {} did not contain expected contents {}", n, needle);
    }
}

#[test]
fn frequency_every_day() {
    let mut c = build(RollingConditionBasic::new().daily(), 9);
    c.write_with_datetime(b"Line 1\n", &ts(2021, 3, 30, 1, 2, 3));
    c.write_with_datetime(b"Line 2\n", &ts(2021, 3, 30, 1, 3, 0));
    c.write_with_datetime(b"Line 3\n", &ts(2021, 3, 31, 1, 4, 0));
    c.write_with_datetime(b"Line 4\n", &ts(2021, 5, 31, 1, 4, 0));
    c.write_with_datetime(b"Line 5\n", &ts(2022, 5, 31, 1, 4, 0));
    assert_eq!(c.read_file(4).is_none(), true);
    verify_contains(&mut c, "Line 1", 3);
    verify_contains(&mut c, "Line 2", 3);
    verify_contains(&mut c, "Line 3", 2);
    verify_contains(&mut c, "Line 4", 1);
    verify_contains(&mut c, "Line 5", 0);
}

#[test]
fn frequency_every_day_limited_files() {
    let mut c = build(RollingConditionBasic::new().daily(), 2);
    c.write_with_datetime(b"Line 1\n", &ts(2021, 3, 30, 1, 2, 3));
    c.write_with_datetime(b"Line 2\n", &ts(2021, 3, 30, 1, 3, 0));
    c.write_with_datetime(b"Line 3\n", &ts(2021, 3, 31, 1, 4, 0));
    c.write_with_datetime(b"Line 4\n", &ts(2021, 5, 31, 1, 4, 0));
    c.write_with_datetime(b"Line 5\n", &ts(2022, 5, 31, 1, 4, 0));
    assert_eq!(c.read_file(4).is_none(), true);
    assert_eq!(c.read_file(3).is_none(), true);
    verify_contains(&mut c, "Line 3", 2);
    verify_contains(&mut c, "Line 4", 1);
    verify_contains(&mut c, "Line 5", 0);
}

#[test]
fn frequency_every_hour() {
    let mut c = build(RollingConditionBasic::new().hourly(), 9);
    c.write_with_datetime(b"Line 1\n", &ts(2021, 3, 30, 1, 2, 3));
    c.write_with_datetime(b"Line 2\n", &ts(2021, 3, 30, 1, 3, 2));
    c.write_with_datetime(b"Line 3\n", &ts(2021, 3, 30, 2, 1, 0));
    c.write_with_datetime(b"Line 4\n", &ts(2021, 3, 31, 2, 1, 0));
    assert_eq!(c.read_file(3).is_none(), true);
    verify_contains(&mut c, "Line 1", 2);
    verify_contains(&mut c, "Line 2", 2);
    verify_contains(&mut c, "Line 3", 1);
    verify_contains(&mut c, "Line 4", 0);
}

#[test]
fn frequency_every_minute() {
    let mut c = build(
        RollingConditionBasic::new().frequency(RollingFrequency::EveryMinute),
        9,
    );
    c.write_with_datetime(b"Line 1\n", &ts(2021, 3, 30, 1, 2, 3));
    c.write_with_datetime(b"Line 2\n", &ts(2021, 3, 30, 1, 2, 3));
    c.write_with_datetime(b"Line 3\n", &ts(2021, 3, 30, 1, 2, 4));
    c.write_with_datetime(b"Line 4\n", &ts(2021, 3, 30, 1, 3, 0));
    c.write_with_datetime(b"Line 5\n", &ts(2021, 3, 30, 2, 3, 0));
    c.write_with_datetime(b"Line 6\n", &ts(2022, 3, 30, 2, 3, 0));
    assert_eq!(c.read_file(4).is_none(), true);
    verify_contains(&mut c, "Line 1", 3);
    verify_contains(&mut c, "Line 2", 3);
    verify_contains(&mut c, "Line 3", 3);
    verify_contains(&mut c, "Line 4", 2);
    verify_contains(&mut c, "Line 5", 1);
    verify_contains(&mut c, "Line 6", 0);
}

#[test]
fn max_size() {
    let mut c = build(RollingConditionBasic::new().max_size(10), 9);
    c.write_with_datetime(b"12345", &ts(2021, 3, 30, 1, 2, 3));
    c.write_with_datetime(b"6789", &ts(2021, 3, 30, 1, 3, 3));
    c.write_with_datetime(b"0", &ts(2021, 3, 30, 2, 3, 3));
    c.write_with_datetime(b"abcdefghijklmn", &ts(2021, 3, 31, 2, 3, 3));
    c.write_with_datetime(b"ZZZ", &ts(2022, 3, 31, 1, 2, 3));
    assert_eq!(c.read_file(3).is_none(), true);
    verify_contains(&mut c, "1234567890", 2);
    verify_contains(&mut c, "abcdefghijklmn", 1);
    verify_contains(&mut c, "ZZZ", 0);
}

#[test]
fn max_size_existing() {
    let mut c = build(RollingConditionBasic::new().max_size(10), 9);
    c.write_with_datetime(b"12345", &ts(2021, 3, 30, 1, 2, 3));
    // close the file and make sure that it can re-open it, and that it
    // resets the file size properly.
    c.release_writer();
    c.current_filesize = 0;
    c.write_with_datetime(b"6789", &ts(2021, 3, 30, 1, 3, 3));
    c.write_with_datetime(b"0", &ts(2021, 3, 30, 2, 3, 3));
    c.write_with_datetime(b"abcdefghijklmn", &ts(2021, 3, 31, 2, 3, 3));
    c.write_with_datetime(b"ZZZ", &ts(2022, 3, 31, 1, 2, 3));
    assert_eq!(c.read_file(3).is_none(), true);
    verify_contains(&mut c, "1234567890", 2);
    verify_contains(&mut c, "abcdefghijklmn", 1);
    verify_contains(&mut c, "ZZZ", 0);
}

#[test]
fn daily_and_max_size() {
    let mut c = build(RollingConditionBasic::new().daily().max_size(10), 9);
    c.write_with_datetime(b"12345", &ts(2021, 3, 30, 1, 2, 3));
    c.write_with_datetime(b"6789", &ts(2021, 3, 30, 2, 3, 3));
    c.write_with_datetime(b"0", &ts(2021, 3, 31, 2, 3, 3));
    c.write_with_datetime(b"abcdefghijklmn", &ts(2021, 3, 31, 3, 3, 3));
    c.write_with_datetime(b"ZZZ", &ts(2021, 3, 31, 4, 4, 4));
    assert_eq!(c.read_file(3).is_none(), true);
    verify_contains(&mut c, "123456789", 2);
    verify_contains(&mut c, "0abcdefghijklmn", 1);
    verify_contains(&mut c, "ZZZ", 0);
}

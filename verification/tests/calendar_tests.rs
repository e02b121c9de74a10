use logger_utc::{leap_year, month_length, UtcInstant, MAX_YEAR, MIN_YEAR};

#[test]
fn new_keeps_the_fields_it_was_given() {
    let t = UtcInstant::new(2024, 2, 29, 13, 37, 42).unwrap();
    assert_eq!(
        (t.year(), t.month(), t.day(), t.hour(), t.minute(), t.second()),
        (2024, 2, 29, 13, 37, 42)
    );
}

#[test]
fn new_refuses_the_29th_of_february_in_a_common_year() {
    assert!(UtcInstant::new(2023, 2, 29, 0, 0, 0).is_none());
    assert!(UtcInstant::new(1900, 2, 29, 0, 0, 0).is_none());
    assert!(UtcInstant::new(2100, 2, 29, 0, 0, 0).is_none());
}

#[test]
fn new_accepts_the_29th_of_february_in_a_leap_year() {
    assert!(UtcInstant::new(2024, 2, 29, 0, 0, 0).is_some());
    assert!(UtcInstant::new(2000, 2, 29, 0, 0, 0).is_some());
    assert!(UtcInstant::new(0, 2, 29, 0, 0, 0).is_some());
    assert!(UtcInstant::new(-4, 2, 29, 0, 0, 0).is_some());
    assert!(UtcInstant::new(-400, 2, 29, 0, 0, 0).is_some());
    assert!(UtcInstant::new(-100, 2, 29, 0, 0, 0).is_none());
}

#[test]
fn new_refuses_months_that_are_none() {
    assert!(UtcInstant::new(2024, 0, 1, 0, 0, 0).is_none());
    assert!(UtcInstant::new(2024, 13, 1, 0, 0, 0).is_none());
    assert!(UtcInstant::new(2024, u32::MAX, 1, 0, 0, 0).is_none());
}

#[test]
fn new_refuses_days_that_the_month_lacks() {
    assert!(UtcInstant::new(2024, 1, 0, 0, 0, 0).is_none());
    assert!(UtcInstant::new(2024, 1, 32, 0, 0, 0).is_none());
    assert!(UtcInstant::new(2024, 4, 31, 0, 0, 0).is_none());
    assert!(UtcInstant::new(2024, 4, 30, 0, 0, 0).is_some());
    assert!(UtcInstant::new(2024, 2, 30, 0, 0, 0).is_none());
}

#[test]
fn new_refuses_times_off_the_clock() {
    assert!(UtcInstant::new(2024, 1, 1, 24, 0, 0).is_none());
    assert!(UtcInstant::new(2024, 1, 1, 0, 60, 0).is_none());
    assert!(UtcInstant::new(2024, 1, 1, 0, 0, 60).is_none());
    assert!(UtcInstant::new(2024, 1, 1, 23, 59, 59).is_some());
}

#[test]
fn new_refuses_years_out_of_range() {
    assert_eq!(MIN_YEAR, -262_143);
    assert_eq!(MAX_YEAR, 262_142);
    assert!(UtcInstant::new(MIN_YEAR, 1, 1, 0, 0, 0).is_some());
    assert!(UtcInstant::new(MAX_YEAR, 12, 31, 23, 59, 59).is_some());
    assert!(UtcInstant::new(MIN_YEAR - 1, 12, 31, 0, 0, 0).is_none());
    assert!(UtcInstant::new(MAX_YEAR + 1, 1, 1, 0, 0, 0).is_none());
    assert!(UtcInstant::new(i32::MIN, 1, 1, 0, 0, 0).is_none());
    assert!(UtcInstant::new(i32::MAX, 1, 1, 0, 0, 0).is_none());
}

#[test]
fn new_accepts_what_chrono_accepts() {
    let years = [MIN_YEAR - 1, MIN_YEAR, -401, -400, -100, -5, -4, -1, 0, 1, 4, 100, 400, 1900, 1970, 2000, 2023, 2024, 2100, MAX_YEAR, MAX_YEAR + 1];
    for year in years {
        for month in 0..=13 {
            for day in 0..=32 {
                let ours = UtcInstant::new(year, month, day, 12, 0, 0).is_some();
                let theirs = chrono::NaiveDate::from_ymd_opt(year, month, day).is_some();
                assert_eq!(ours, theirs, "{year}-{month}-{day}");
            }
        }
    }
    for hour in 0..=25 {
        for minute in [0, 1, 59, 60, 61] {
            for second in [0, 1, 59, 60, 61] {
                let ours = UtcInstant::new(2024, 6, 15, hour, minute, second).is_some();
                let theirs = chrono::NaiveTime::from_hms_opt(hour, minute, second).is_some();
                assert_eq!(ours, theirs, "{hour}:{minute}:{second}");
            }
        }
    }
}

#[test]
fn leap_years_follow_the_gregorian_rule() {
    assert!(leap_year(2024));
    assert!(leap_year(2000));
    assert!(leap_year(0));
    assert!(leap_year(-4));
    assert!(leap_year(-400));
    assert!(!leap_year(2023));
    assert!(!leap_year(1900));
    assert!(!leap_year(2100));
    assert!(!leap_year(-1));
    assert!(!leap_year(-100));
    assert!(!leap_year(-3));
}

#[test]
fn month_lengths_of_a_common_and_a_leap_year() {
    let common: Vec<u32> = (1..=12).map(|m| month_length(2023, m)).collect();
    assert_eq!(common, vec![31, 28, 31, 30, 31, 30, 31, 31, 30, 31, 30, 31]);
    let leap: Vec<u32> = (1..=12).map(|m| month_length(2024, m)).collect();
    assert_eq!(leap, vec![31, 29, 31, 30, 31, 30, 31, 31, 30, 31, 30, 31]);
}

#[test]
fn month_length_of_no_month_is_zero() {
    assert_eq!(month_length(2024, 0), 0);
    assert_eq!(month_length(2024, 13), 0);
    assert_eq!(month_length(2024, u32::MAX), 0);
}

#[test]
fn now_lies_between_two_readings_of_the_clock() {
    let before = chrono::Utc::now().timestamp();
    let t = UtcInstant::now();
    let after = chrono::Utc::now().timestamp();
    let read = chrono::NaiveDate::from_ymd_opt(t.year(), t.month(), t.day())
        .unwrap()
        .and_hms_opt(t.hour(), t.minute(), t.second())
        .unwrap()
        .and_utc()
        .timestamp();
    assert!(before <= read && read <= after);
}

#[test]
fn now_is_a_moment_that_exists() {
    let t = UtcInstant::now();
    let again = UtcInstant::new(t.year(), t.month(), t.day(), t.hour(), t.minute(), t.second());
    assert!(again.is_some());
    assert!(t.year() >= 1970);
}

use cxx_qt_gen::qdate::QDate;
use cxx_qt_gen::qtime::QTime;

#[test]
fn qdate_current_date() {
    let date_a = QDate::current_date();
    let date_b = date_a.add_days(100);
    assert_eq!(date_a.days_to(date_b), 100);
}

#[test]
fn qdate_julian_day() {
    let date_a = QDate::from(1000);
    let date_b = QDate::from(1010);
    assert_eq!(date_a.days_to(date_b), 10);
}

#[test]
fn qdate_new_epoch() {
    // 1 January 1970 is Julian day 2440588.
    let date = QDate::new(1970, 1, 1);
    assert_eq!(date.to_julian_day(), 2440588);
}

#[test]
fn qdate_new_rejects_invalid() {
    assert!(QDate::new(2023, 2, 29).is_null());
    assert!(QDate::new(2023, 13, 1).is_null());
    assert!(QDate::new(2023, 0, 1).is_null());
    assert!(QDate::new(0, 1, 1).is_null());
    assert!(!QDate::new(2024, 2, 29).is_null());
}

#[test]
fn qdate_new_roundtrip_distance() {
    let a = QDate::new(2023, 1, 1);
    let b = QDate::new(2023, 12, 31);
    assert_eq!(a.days_to(b), 364);
    let c = QDate::new(2024, 12, 31);
    assert_eq!(QDate::new(2024, 1, 1).days_to(c), 365);
}

#[test]
fn qdate_is_leap_year() {
    assert!(QDate::is_leap_year(2000));
    assert!(!QDate::is_leap_year(1900));
    assert!(QDate::is_leap_year(2024));
    assert!(!QDate::is_leap_year(2023));
    // There is no year zero: the year before 1 is -1, a leap year.
    assert!(QDate::is_leap_year(-1));
    assert!(!QDate::is_leap_year(-2));
}

#[test]
fn qdate_add_days_out_of_range_is_null() {
    let date = QDate::from_julian_day(0);
    assert!(date.add_days(i64::MAX).is_null());
    let null = QDate::null_date();
    assert!(null.add_days(1).is_null());
}

#[test]
fn qdate_days_to_invalid_is_zero() {
    let valid = QDate::from_julian_day(1000);
    let null = QDate::null_date();
    assert_eq!(valid.days_to(null), 0);
    assert_eq!(null.days_to(valid), 0);
}

#[test]
fn qtime_new_and_parts() {
    let time = QTime::new(1, 2, 3, 4);
    assert_eq!(time.msecs_since_start_of_day(), ((1 * 3600 + 2 * 60 + 3) * 1000 + 4));
    assert!(time.is_valid());
}

#[test]
fn qtime_new_rejects_invalid() {
    assert!(QTime::new(24, 0, 0, 0).is_null());
    assert!(QTime::new(0, 60, 0, 0).is_null());
    assert!(QTime::new(0, 0, 60, 0).is_null());
    assert!(QTime::new(0, 0, 0, 1000).is_null());
    assert!(QTime::new(-1, 0, 0, 0).is_null());
}

#[test]
fn qtime_from_msecs_since_start_of_day() {
    let time = QTime::from_msecs_since_start_of_day(123456);
    assert_eq!(time.msecs_since_start_of_day(), 123456);
    assert!(QTime::from_msecs_since_start_of_day(86400000).is_null());
    assert!(QTime::from_msecs_since_start_of_day(-5).is_null());
}

#[test]
fn qtime_msecs_to_and_secs_to() {
    let early = QTime::new(1, 0, 0, 0);
    let late = QTime::new(2, 0, 0, 500);
    assert_eq!(early.msecs_to(late), 3600500);
    assert_eq!(late.msecs_to(early), -3600500);
    assert_eq!(early.secs_to(late), 3600);
    assert_eq!(late.secs_to(early), -3600);
    assert_eq!(early.msecs_to(QTime::null_time()), 0);
}

#[test]
fn qtime_current_time_is_valid() {
    assert!(QTime::current_time().is_valid());
}

#[test]
fn qdate_from_entries_matches_new() {
    let entries = vec![
        ("year".to_owned(), 2023),
        ("month".to_owned(), 1),
        ("day".to_owned(), 1),
    ];
    assert_eq!(QDate::from_entries(&entries).unwrap(), QDate::new(2023, 1, 1));
}

#[test]
fn qdate_from_entries_rejects_bad_fields() {
    let unknown = vec![("year".to_owned(), 2023), ("hour".to_owned(), 1)];
    assert_eq!(
        QDate::from_entries(&unknown).unwrap_err(),
        "expected either year, month, or day as a key"
    );
    let missing = vec![("year".to_owned(), 2023), ("month".to_owned(), 1)];
    assert_eq!(
        QDate::from_entries(&missing).unwrap_err(),
        "missing year, month, or day as key"
    );
}

#[test]
fn qtime_from_entries_matches_new() {
    let entries = vec![
        ("hour".to_owned(), 1),
        ("minute".to_owned(), 2),
        ("second".to_owned(), 3),
        ("msec".to_owned(), 4),
    ];
    assert_eq!(QTime::from_entries(&entries).unwrap(), QTime::new(1, 2, 3, 4));
}

#[test]
fn qtime_from_entries_rejects_bad_fields() {
    let unknown = vec![("hour".to_owned(), 1), ("day".to_owned(), 2)];
    assert_eq!(
        QTime::from_entries(&unknown).unwrap_err(),
        "expected either hour, minute, second, or msec as a key"
    );
    let missing = vec![("hour".to_owned(), 1)];
    assert_eq!(
        QTime::from_entries(&missing).unwrap_err(),
        "missing hour, minute, second, or msec as key"
    );
}

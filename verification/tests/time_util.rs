use voicedown::time_util::{
    days_since_epoch_to_date, is_leap_year, timestamp_of, timestamp_string,
};

#[test]
fn is_leap_year_standard_rules() {
    assert!(is_leap_year(2000));
    assert!(!is_leap_year(1900));
    assert!(is_leap_year(2024));
    assert!(!is_leap_year(2023));
    assert!(is_leap_year(1972));
    assert!(!is_leap_year(1970));
}

#[test]
fn days_since_epoch_to_date_at_epoch() {
    assert_eq!(days_since_epoch_to_date(0), (1970, 1, 1));
}

#[test]
fn days_since_epoch_to_date_year_rollover() {
    assert_eq!(days_since_epoch_to_date(365), (1971, 1, 1));
    assert_eq!(days_since_epoch_to_date(730), (1972, 1, 1));
    assert_eq!(days_since_epoch_to_date(1096), (1973, 1, 1));
}

#[test]
fn days_since_epoch_to_date_leap_february_29() {
    assert_eq!(days_since_epoch_to_date(789), (1972, 2, 29));
}

#[test]
fn days_since_epoch_to_date_month_boundaries() {
    assert_eq!(days_since_epoch_to_date(31), (1970, 2, 1));
    assert_eq!(days_since_epoch_to_date(59), (1970, 3, 1));
    assert_eq!(days_since_epoch_to_date(90), (1970, 4, 1));
}

#[test]
fn timestamp_string_format() {
    let ts = timestamp_string();
    assert_eq!(ts.len(), 15);
    assert_eq!(ts.chars().nth(8), Some('_'));
    let year: u32 = ts[..4].parse().unwrap();
    assert!(year >= 2024);
}

#[test]
fn the_last_day_of_a_year() {
    assert_eq!(days_since_epoch_to_date(364), (1970, 12, 31));
    assert_eq!(days_since_epoch_to_date(1095), (1972, 12, 31));
}

#[test]
fn dates_follow_each_other() {
    let mut last = days_since_epoch_to_date(0);
    for d in 1..20000 {
        let next = days_since_epoch_to_date(d);
        assert!(next > last);
        last = next;
    }
    assert_eq!(last, (2024, 10, 3));
}

#[test]
fn stamps_are_in_their_time_zone() {
    assert_eq!(timestamp_of(0), "19700101_080000");
    assert_eq!(timestamp_of(57599), "19700101_235959");
    assert_eq!(timestamp_of(57600), "19700102_000000");
    assert_eq!(timestamp_of(1709136000), "20240229_000000");
    assert_eq!(timestamp_of(1700000000), "20231115_061320");
}

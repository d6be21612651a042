use mentor_script::clock::LocalTime;
use mentor_script::scheduler::{check_time, minutes_until_next_check, seconds_until_next_check, CheckType};

fn at(hour: u64, minute: u64, second: u64) -> LocalTime {
    LocalTime::from_hms(20000, hour, minute, second)
}

#[test]
fn clock_fields_round_trip() {
    let t = LocalTime::from_hms(2, 14, 29, 10);
    assert_eq!(t.secs, 2 * 86400 + 14 * 3600 + 29 * 60 + 10);
    assert_eq!(t.hour(), 14);
    assert_eq!(t.minute(), 29);
    assert_eq!(t.second(), 10);
    assert_eq!(t.plus_secs(300), LocalTime::from_hms(2, 14, 34, 10));
    assert!(t.is_before(&t.plus_secs(1)));
    assert!(!t.is_before(&t));
}

#[test]
fn clock_counts() {
    assert_eq!(LocalTime::from_clock_secs(-1), None);
    assert_eq!(LocalTime::from_clock_secs(0), Some(LocalTime::new(0)));
    assert_eq!(LocalTime::from_clock_secs(90061), Some(LocalTime::from_hms(1, 1, 1, 1)));
    let now = LocalTime::now().expect("clock before 1970");
    assert!(now.secs > 1_600_000_000);
    assert!(now.hour() < 24 && now.minute() < 60 && now.second() < 60);
}

#[test]
fn next_check_examples() {
    assert_eq!(minutes_until_next_check(at(9, 25, 0)), (CheckType::HalfHour, 5));
    assert_eq!(minutes_until_next_check(at(9, 50, 0)), (CheckType::Hour, 5));
    assert_eq!(minutes_until_next_check(at(9, 58, 0)), (CheckType::HalfHour, 32));
    assert_eq!(minutes_until_next_check(at(0, 0, 0)), (CheckType::HalfHour, 30));
    assert_eq!(minutes_until_next_check(at(23, 30, 59)), (CheckType::Hour, 25));
    assert_eq!(minutes_until_next_check(at(23, 55, 0)), (CheckType::HalfHour, 35));
    assert_eq!(minutes_until_next_check(at(23, 59, 59)), (CheckType::HalfHour, 31));
}

#[test]
fn next_check_every_minute() {
    for m in 0..60u64 {
        for h in [0u64, 13, 23] {
            let (check, remaining) = minutes_until_next_check(at(h, m, 17));
            if m < 30 {
                assert_eq!((check, remaining), (CheckType::HalfHour, 30 - m as i64));
            } else if m < 55 {
                assert_eq!((check, remaining), (CheckType::Hour, 55 - m as i64));
            } else {
                assert_eq!((check, remaining), (CheckType::HalfHour, 90 - m as i64));
            }
        }
    }
}

#[test]
fn trigger_minutes_only() {
    for h in 0..24u64 {
        for m in 0..60u64 {
            for s in [0u64, 31, 59] {
                let expected = match m {
                    30 => Some(CheckType::HalfHour),
                    55 => Some(CheckType::Hour),
                    _ => None,
                };
                assert_eq!(check_time(at(h, m, s)), expected);
            }
        }
    }
}

#[test]
fn seconds_until_examples() {
    assert_eq!(seconds_until_next_check(at(14, 29, 10)), 50);
    assert_eq!(seconds_until_next_check(at(14, 25, 0)), 300);
    assert_eq!(seconds_until_next_check(at(14, 30, 0)), 25 * 60);
    assert_eq!(seconds_until_next_check(at(14, 59, 59)), 31 * 60 - 59);
}

#[test]
fn check_labels() {
    assert_eq!(CheckType::Hour.label(), "One hour check");
    assert_eq!(CheckType::HalfHour.label(), "Half hour check");
}

use compile_time::context::BuildContext;
use compile_time::instant::{instant_from_unix, BuildInstant, ClockReadError};

fn now_unix() -> i64 {
    match std::time::SystemTime::now().duration_since(std::time::UNIX_EPOCH) {
        Ok(d) => d.as_secs() as i64,
        Err(_) => -1,
    }
}

fn now_instant() -> BuildInstant {
    instant_from_unix(now_unix()).expect("host clock gave an unrepresentable reading")
}

#[test]
fn date_is_cached() {
    let mut ctx = BuildContext::new();
    let first = ctx.get_build_instant(now_instant());
    // a later request brings a fresh (different) sample, but must observe the
    // memoized capture
    let later = instant_from_unix(first.unix_seconds() + 5).unwrap();
    let second = ctx.get_build_instant(later);
    assert_eq!(
        (first.year, first.month, first.day),
        (second.year, second.month, second.day)
    );
    assert_eq!(first.date_string(), second.date_string());
}

#[test]
fn time_is_cached() {
    let mut ctx = BuildContext::new();
    let first = ctx.get_build_instant(now_instant());
    let later = instant_from_unix(first.unix_seconds() + 5).unwrap();
    let second = ctx.get_build_instant(later);
    assert_eq!(
        (first.hour, first.minute, first.second),
        (second.hour, second.minute, second.second)
    );
    assert_eq!(first.time_string(), second.time_string());
}

#[test]
fn datetime_is_cached() {
    let mut ctx = BuildContext::new();
    let first = ctx.get_build_instant(now_instant());
    let later = instant_from_unix(first.unix_seconds() + 5).unwrap();
    let second = ctx.get_build_instant(later);
    assert_eq!(first, second);
    assert_eq!(first.datetime_string(), second.datetime_string());
}

#[test]
fn date_format() {
    let i = now_instant();
    let s = format!("{:04}-{:02}-{:02}", i.year, i.month, i.day);
    assert_eq!(i.date_string(), s);
}

#[test]
fn time_format() {
    let i = now_instant();
    let s = format!("{:02}:{:02}:{:02}", i.hour, i.minute, i.second);
    assert_eq!(i.time_string(), s);
}

#[test]
fn datetime_format() {
    let i = now_instant();
    let s = format!(
        "{:04}-{:02}-{:02}T{:02}:{:02}:{:02}Z",
        i.year, i.month, i.day, i.hour, i.minute, i.second
    );
    assert_eq!(i.datetime_string(), s);
}

#[test]
fn datetime_range() {
    let before = now_unix();
    let captured = instant_from_unix(now_unix()).unwrap();
    let mut after = now_unix();
    while after <= before {
        after = now_unix();
    }
    let yesterday = after - 86400;
    assert!(captured.unix_seconds() > yesterday);
    assert!(captured.unix_seconds() < after);
}

#[test]
fn datetime_views_agree() {
    // the combined view is exactly date + 'T' + time + 'Z', for an arbitrary
    // captured instant
    let i = now_instant();
    let joined = format!("{}T{}Z", i.date_string(), i.time_string());
    assert_eq!(i.datetime_string(), joined);
}

#[test]
fn known_instant_views() {
    // a clock reading of 2024-03-05T14:08:31 UTC
    let i = instant_from_unix(1709647711).unwrap();
    assert_eq!(
        (i.year, i.month, i.day, i.hour, i.minute, i.second),
        (2024, 3, 5, 14, 8, 31)
    );
    assert_eq!(i.date_string(), "2024-03-05");
    assert_eq!(i.time_string(), "14:08:31");
    assert_eq!(i.datetime_string(), "2024-03-05T14:08:31Z");
    assert_eq!(i.unix_seconds(), 1709647711);
}

#[test]
fn unix_round_trip() {
    // UNIX seconds convert back to exactly the calendar fields they came from
    let epoch = instant_from_unix(0).unwrap();
    assert_eq!(
        (epoch.year, epoch.month, epoch.day, epoch.hour, epoch.minute, epoch.second),
        (1970, 1, 1, 0, 0, 0)
    );
    let leap_day = BuildInstant { year: 2024, month: 2, day: 29, hour: 23, minute: 59, second: 59 };
    let back = instant_from_unix(leap_day.unix_seconds()).unwrap();
    assert_eq!(back, leap_day);
    let last = BuildInstant { year: 9999, month: 12, day: 31, hour: 23, minute: 59, second: 59 };
    let back = instant_from_unix(last.unix_seconds()).unwrap();
    assert_eq!(back, last);
}

#[test]
fn unrepresentable_readings_rejected() {
    assert_eq!(instant_from_unix(-1), Err(ClockReadError::Unrepresentable));
    let last = BuildInstant { year: 9999, month: 12, day: 31, hour: 23, minute: 59, second: 59 };
    let limit = last.unix_seconds() + 1;
    assert_eq!(instant_from_unix(limit - 1), Ok(last));
    assert_eq!(instant_from_unix(limit), Err(ClockReadError::Unrepresentable));
    assert_eq!(instant_from_unix(i64::MAX), Err(ClockReadError::Unrepresentable));
}

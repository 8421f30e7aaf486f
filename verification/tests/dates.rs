use opj::datefmt::{
    format_duration_days, format_relative_time, format_relative_time_from, parse_date_string,
};

#[test]
fn test_format_duration_days() {
    assert_eq!(format_duration_days(0), "Today");
    assert_eq!(format_duration_days(1), "1 day");
    assert_eq!(format_duration_days(5), "5 days");
    assert_eq!(format_duration_days(7), "1 week");
    assert_eq!(format_duration_days(14), "2 weeks");
    assert_eq!(format_duration_days(30), "1 month");
    assert_eq!(format_duration_days(60), "2 months");
}

#[test]
fn test_format_relative_time() {
    let now = chrono::Utc::now().timestamp();

    let five_minutes_ago = now - 5 * 60;
    assert_eq!(format_relative_time(five_minutes_ago), "5 min ago");

    let two_hours_ago = now - 2 * 3600;
    assert_eq!(format_relative_time(two_hours_ago), "2 hours ago");

    let yesterday = now - 86400;
    assert_eq!(format_relative_time(yesterday), "1 day ago");

    let three_days_ago = now - 3 * 86400;
    assert_eq!(format_relative_time(three_days_ago), "3 days ago");
}

#[test]
fn test_relative_time_buckets() {
    let now = 1_750_000_000i64;
    assert_eq!(format_relative_time_from(now, now), "Just now");
    assert_eq!(format_relative_time_from(now, now - 120), "2 min ago");
    assert_eq!(format_relative_time_from(now, now - 7 * 86400), "1 week ago");
    assert_eq!(
        format_relative_time_from(now, now - 14 * 86400),
        "2 weeks ago"
    );
    // Four weeks or older: the plain date of the old timestamp.
    let old = now - 40 * 86400;
    let expected = chrono::DateTime::<chrono::Utc>::from_timestamp(old, 0)
        .unwrap()
        .format("%Y-%m-%d")
        .to_string();
    assert_eq!(format_relative_time_from(now, old), expected);
}

#[test]
fn test_parse_date_string() {
    let date_str = "2025-06-18";
    let parsed = parse_date_string(date_str).unwrap();
    let rendered = chrono::DateTime::<chrono::Utc>::from_timestamp(parsed, 0)
        .unwrap()
        .format("%Y-%m-%d")
        .to_string();
    assert_eq!(rendered, "2025-06-18");

    let datetime_str = "2025-06-18T10:30:00Z";
    let parsed_dt = parse_date_string(datetime_str).unwrap();
    let rendered_dt = chrono::DateTime::<chrono::Utc>::from_timestamp(parsed_dt, 0)
        .unwrap()
        .format("%Y-%m-%dT%H:%M:%SZ")
        .to_string();
    assert_eq!(rendered_dt, "2025-06-18T10:30:00Z");
}

#[test]
fn test_parse_date_string_exact_value() {
    assert_eq!(parse_date_string("2025-06-18"), Some(1_750_204_800));
    assert_eq!(
        parse_date_string("2025-06-18 10:30:00"),
        Some(1_750_204_800 + 10 * 3600 + 30 * 60)
    );
    assert_eq!(parse_date_string("not a date"), None);
}

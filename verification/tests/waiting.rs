use sigue::time::{parse_wait_seconds, try_parse_absolute, try_parse_relative};

#[test]
fn parse_relative_hours() {
    let secs = try_parse_relative("Try again in 2 hours").unwrap();
    assert_eq!(secs, 7200);
}

#[test]
fn parse_relative_minutes() {
    let secs = try_parse_relative("resets in 30 minutes").unwrap();
    assert_eq!(secs, 1800);
}

#[test]
fn parse_relative_shorthand() {
    let secs = try_parse_relative("resets in: 5m").unwrap();
    assert_eq!(secs, 300);
}

#[test]
fn parse_absolute_utc_returns_something() {
    let result = try_parse_absolute("resets 3pm (UTC)");
    assert!(result.is_some());
    let secs = result.unwrap();
    assert!(secs <= 24 * 3600);
}

#[test]
fn parse_absolute_named_tz() {
    let result = try_parse_absolute("resets 3pm (Europe/Dublin)");
    assert!(result.is_some());
    assert!(result.unwrap() <= 24 * 3600);
}

#[test]
fn parse_absolute_half_hour_offset_tz() {
    let result = try_parse_absolute("resets 3pm (Asia/Kolkata)");
    assert!(result.is_some());
    assert!(result.unwrap() <= 24 * 3600);
}

#[test]
fn parse_absolute_us_abbreviation() {
    let result = try_parse_absolute("resets 3pm (PST)");
    assert!(result.is_some());
}

#[test]
fn parse_absolute_no_tz_uses_local() {
    let result = try_parse_absolute("resets 3pm");
    assert!(result.is_some());
}

#[test]
fn fallback_when_unparseable() {
    let secs = parse_wait_seconds("no time info here", 60, 18000);
    assert_eq!(secs, 18000);
}

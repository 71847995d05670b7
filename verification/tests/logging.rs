use chrono::{Duration, Local};
use sigue::calendar::{Instants, Moment};
use sigue::logger::{
    cleanup_old_logs, config_path, is_day_outdated, is_outdated, log, log_dir, log_entry,
    log_path, today_log_path,
};

#[test]
fn files_lie_in_the_home_directory() {
    let home = Some("/home/me".to_string());
    assert_eq!(config_path(&home, "sigue-tool"), "/home/me/.sigue-tool.json");
    assert_eq!(log_dir(&home, "sigue-tool"), "/home/me/.sigue-tool/logs");
    assert_eq!(
        log_path(&home, "sigue-tool", "2026-01-02"),
        "/home/me/.sigue-tool/logs/2026-01-02.log"
    );
    assert_eq!(config_path(&None, "sigue-tool"), "./.sigue-tool.json");
    assert_eq!(log_dir(&Some("/".to_string()), "x"), "/.x/logs");
    assert_eq!(log_dir(&Some("".to_string()), "x"), ".x/logs");
}

#[test]
fn todays_log_is_named_by_date() {
    let before = Local::now().format("%Y-%m-%d").to_string();
    let path = today_log_path(&None, "x");
    let after = Local::now().format("%Y-%m-%d").to_string();
    assert!(
        path == format!("./.x/logs/{}.log", before) || path == format!("./.x/logs/{}.log", after)
    );
}

#[test]
fn log_lines_bear_the_time() {
    let before = Local::now().format("[%Y-%m-%d %H:%M:%S] hello").to_string();
    let line = log("hello");
    let after = Local::now().format("[%Y-%m-%d %H:%M:%S] hello").to_string();
    assert_eq!(line.len(), "[2026-01-02 03:04:05] hello".len());
    assert!(before <= line && line <= after);
}

#[test]
fn old_logs_are_removed() {
    let today = Local::now();
    let day = |n: i64| (today - Duration::days(n)).format("%Y-%m-%d").to_string();
    let names = vec![
        day(0),
        day(3),
        day(6),
        day(9),
        day(400),
        "notes".to_string(),
        "2020-13-01".to_string(),
        "2020-01-01".to_string(),
        "2020-1-1".to_string(),
        "2020-01-01-old".to_string(),
    ];
    assert_eq!(
        cleanup_old_logs(&names, 7),
        vec![false, false, false, true, true, false, false, true, true, false]
    );
    assert_eq!(cleanup_old_logs(&Vec::new(), 7), Vec::<bool>::new());
}

#[test]
fn age_is_measured_from_the_start_of_the_log() {
    let week = 7 * 86_400;
    let now = |nanos: u32| Moment { secs: 1_000_000_000, nanos };
    let began = 1_000_000_000 - week;
    assert!(!is_outdated(began, now(0), 7));
    assert!(is_outdated(began, now(1), 7));
    assert!(is_outdated(began - 1, now(0), 7));
    assert!(!is_outdated(began + 1, now(5), 7));
    assert!(is_outdated(began, now(0), 6));
    assert!(!is_outdated(0, now(0), i64::MAX));
    assert!(is_outdated(0, now(0), i64::MIN));
}

#[test]
fn log_entries_bear_the_given_time() {
    assert_eq!(log_entry(0, "x"), "[1970-01-01 00:00:00] x");
    assert_eq!(log_entry(1_794_830_401, "a b"), "[2026-11-16 12:00:01] a b");
}

#[test]
fn odd_midnights_are_judged_too() {
    let now = Moment { secs: 1_000_000, nanos: 0 };
    let old = 1_000_000 - 86_400 - 1;
    let young = old + 1;
    assert!(is_day_outdated(old, Instants::Missing, now, 1));
    assert!(!is_day_outdated(young, Instants::Missing, now, 1));
    assert!(is_day_outdated(young, Instants::Unique(old), now, 1));
    assert!(is_day_outdated(young, Instants::Ambiguous(old, young), now, 1));
    assert!(!is_day_outdated(old, Instants::Ambiguous(young, old), now, 1));
}

use sigue::config::Config;
use sigue::regexp::Pattern;

#[test]
fn settings_have_defaults() {
    let config = Config::default();
    assert_eq!(config.max_retries, 10);
    assert_eq!(config.poll_interval_secs, 5);
    assert_eq!(config.margin_secs, 60);
    assert_eq!(config.fallback_wait_secs, 300);
    assert_eq!(config.retry_message, "continue");
    assert_eq!(config.throttle_base_secs, 30);
    assert_eq!(config.throttle_max_secs, 600);
    assert!(config.custom_patterns.is_empty());
}

#[test]
fn backoff_doubles_up_to_the_cap() {
    let config = Config::default();
    let waits: Vec<u64> = (0..8).map(|attempt| config.throttle_backoff(attempt)).collect();
    assert_eq!(waits, vec![30, 30, 60, 120, 240, 480, 600, 600]);
    assert_eq!(config.throttle_backoff(u32::MAX), 600);
}

#[test]
fn backoff_is_capped_at_the_limits_of_its_type() {
    let huge = Config {
        throttle_base_secs: u64::MAX,
        throttle_max_secs: u64::MAX,
        ..Config::default()
    };
    assert_eq!(huge.throttle_backoff(1), u64::MAX);
    assert_eq!(huge.throttle_backoff(65), u64::MAX);
    let none = Config { throttle_base_secs: 0, ..Config::default() };
    assert_eq!(none.throttle_backoff(100), 0);
    let odd = Config { throttle_base_secs: 1, throttle_max_secs: u64::MAX, ..Config::default() };
    assert_eq!(odd.throttle_backoff(64), 1 << 63);
    assert_eq!(odd.throttle_backoff(65), u64::MAX);
}

#[test]
fn bad_patterns_are_skipped_and_told() {
    let config = Config {
        custom_patterns: vec!["quota".to_string(), "(".to_string(), "over \\d+".to_string()],
        ..Config::default()
    };
    let compiled = config.compile_custom_patterns();
    assert_eq!(compiled.len(), 2);
    assert_eq!(compiled[0].as_str(), "(?i)quota");
    assert_eq!(compiled[1].as_str(), "(?i)over \\d+");
    assert!(compiled[0].occurs_in("QUOTA exceeded"));
    assert!(compiled[1].occurs_in("Over 12"));
    assert!(!compiled[1].occurs_in("over it"));
    let skipped = config.skipped_patterns();
    assert_eq!(skipped.len(), 1);
    assert!(skipped[0].starts_with("[sigue] Skipping bad custom pattern '(': "));
    assert!(skipped[0].contains("unclosed group"));
}

#[test]
fn pattern_that_does_not_compile_is_refused_with_a_reason() {
    let reason = Pattern::new("[a").unwrap_err();
    assert!(reason.contains("unclosed character class"));
    assert!(Pattern::new("[a]").is_ok());
}

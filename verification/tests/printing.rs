use sigue::config::Config;
use sigue::monitor::Sighting;
use sigue::patterns::{RateLimitDetection, RateLimitKind};
use sigue::print_mode::{decide_run, exit_byte, judge_run, Next, Run};
use sigue::regexp::Pattern;

fn run(code: Option<i32>, stdout: &str, stderr: &str) -> Run {
    Run { code, stdout: stdout.as_bytes().to_vec(), stderr: stderr.as_bytes().to_vec() }
}

#[test]
fn exit_codes_keep_their_lowest_byte() {
    assert_eq!(exit_byte(Some(0), 1), 0);
    assert_eq!(exit_byte(Some(3), 1), 3);
    assert_eq!(exit_byte(Some(256), 1), 0);
    assert_eq!(exit_byte(Some(-1), 1), 255);
    assert_eq!(exit_byte(None, 1), 1);
    assert_eq!(exit_byte(None, 0), 0);
}

#[test]
fn run_without_limit_finishes() {
    let verdict = judge_run(&Config::default(), &[], 0, &run(Some(7), "fine", "warning"));
    assert_eq!(verdict.next, Next::Finish(7));
    assert_eq!(verdict.notice, None);
    let verdict = judge_run(&Config::default(), &[], 0, &run(None, "", ""));
    assert_eq!(verdict.next, Next::Finish(1));
}

#[test]
fn throttle_on_either_output_is_retried() {
    let config = Config::default();
    let text = "Error 429 Too Many Requests";
    let on_stderr = judge_run(&config, &[], 0, &run(Some(1), "", text));
    assert_eq!(on_stderr.next, Next::Retry(30));
    assert_eq!(
        on_stderr.notice.as_deref(),
        Some("Server throttle detected. Backoff 30s (attempt 1/10).")
    );
    let on_stdout = judge_run(&config, &[], 2, &run(Some(0), text, ""));
    assert_eq!(on_stdout.next, Next::Retry(120));
    assert_eq!(
        on_stdout.notice.as_deref(),
        Some("Server throttle detected. Backoff 120s (attempt 3/10).")
    );
}

#[test]
fn limit_is_waited_for_with_its_message() {
    let config = Config::default();
    let output = "You've hit your limit, try again in 30 minutes";
    let verdict = judge_run(&config, &[], 0, &run(Some(1), output, ""));
    assert_eq!(verdict.next, Next::Retry(1860));
    assert_eq!(
        verdict.notice.as_deref(),
        Some("Account limit hit: You've hit your limit, try again in 30 minutes. Waiting 1860s (attempt 1/10).")
    );
}

#[test]
fn limit_without_message_is_told_as_unknown() {
    let detection = RateLimitDetection { kind: RateLimitKind::AccountLimit, message: None };
    let sighting = Sighting::Limited { detection, wait: Some(300) };
    let verdict = decide_run(&Config::default(), 1, &sighting, Some(1));
    assert_eq!(verdict.next, Next::Retry(300));
    assert_eq!(
        verdict.notice.as_deref(),
        Some("Account limit hit: unknown reset time. Waiting 300s (attempt 2/10).")
    );
}

#[test]
fn reruns_end_after_the_maximum() {
    let config = Config { max_retries: 3, ..Config::default() };
    let limited = run(Some(1), "", "Error 429 Too Many Requests");
    for retries in 0..3 {
        assert!(matches!(judge_run(&config, &[], retries, &limited).next, Next::Retry(_)));
    }
    let verdict = judge_run(&config, &[], 3, &limited);
    assert_eq!(verdict.next, Next::GiveUp);
    assert_eq!(verdict.notice.as_deref(), Some("Max retries (3) reached. Giving up."));
}

#[test]
fn endless_wait_is_not_slept() {
    let output = "You've hit your limit\nresets in 18446744073709551615 hours";
    let verdict = judge_run(&Config::default(), &[], 0, &run(Some(1), output, ""));
    assert_eq!(verdict.next, Next::WaitTooLong);
    assert_eq!(verdict.notice, None);
}

#[test]
fn broken_bytes_are_replaced() {
    let custom = vec![Pattern::new("a\u{FFFD}b").unwrap()];
    let broken = Run { code: Some(0), stdout: vec![b'a', 0xFF, b'b'], stderr: Vec::new() };
    let verdict = judge_run(&Config::default(), &custom, 0, &broken);
    assert!(matches!(verdict.next, Next::Retry(_)));
}

use sigue::numeral::{decimal_string, parse_u32, parse_u64};
use sigue::patterns::{
    decide, detect_rate_limit, find_account_line, strip_ansi, RateLimitKind,
};
use sigue::regexp::Pattern;
use sigue::text::{capitalize, join, lines, starts_with, trim};

fn words(list: &[&str]) -> Vec<String> {
    list.iter().map(|w| w.to_string()).collect()
}

#[test]
fn escape_sequences_are_stripped() {
    assert_eq!(strip_ansi("\x1b[1;31mred\x1b[0m"), "red");
    assert_eq!(strip_ansi("a\x1b]0;title\x07b"), "ab");
    assert_eq!(strip_ansi("a\x1b]8;;x\x1b\\b"), "ab");
    assert_eq!(strip_ansi("a\x1bPq\nr\x1b\\b"), "ab");
    assert_eq!(strip_ansi("plain $1"), "plain $1");
}

#[test]
fn custom_pattern_overrides_a_throttle() {
    let custom = vec![Pattern::new("(?i)busy signal").unwrap()];
    let text = "Error 429 Too Many Requests\n  Busy Signal here  ";
    let found = detect_rate_limit(text, &custom).unwrap();
    assert_eq!(found.kind, RateLimitKind::AccountLimit);
    assert_eq!(found.message.as_deref(), Some("Busy Signal here"));
    let found = detect_rate_limit(text, &[]).unwrap();
    assert_eq!(found.kind, RateLimitKind::ServerThrottle);
    assert_eq!(found.message.as_deref(), Some("Error 429 Too Many Requests"));
}

#[test]
fn pattern_across_lines_has_no_message() {
    let custom = vec![Pattern::new("one\\ntwo").unwrap()];
    let found = detect_rate_limit("one\r\ntwo", &custom).unwrap();
    assert_eq!(found.kind, RateLimitKind::AccountLimit);
    assert_eq!(found.message, None);
}

#[test]
fn throttle_wins_over_an_account_limit() {
    let text = "You've hit your limit\nresets 3pm\nToo many requests";
    assert_eq!(detect_rate_limit(text, &[]).unwrap().kind, RateLimitKind::ServerThrottle);
}

#[test]
fn reset_time_counts_within_six_lines() {
    let screen = |gap: usize| format!("Usage limit reached{}resets 3pm", "\n".repeat(gap));
    assert!(detect_rate_limit(&screen(6), &[]).is_some());
    assert!(detect_rate_limit(&screen(7), &[]).is_none());
    let above = |gap: usize| format!("resets 3pm{}Usage limit reached", "\n".repeat(gap));
    assert!(detect_rate_limit(&above(6), &[]).is_some());
    assert!(detect_rate_limit(&above(7), &[]).is_none());
}

#[test]
fn limit_or_reset_alone_is_no_rate_limit() {
    assert!(detect_rate_limit("Usage limit reached", &[]).is_none());
    assert!(detect_rate_limit("resets 3pm", &[]).is_none());
    assert!(detect_rate_limit("", &[]).is_none());
}

#[test]
fn first_limit_with_a_reset_is_reported() {
    let limit = vec![true, false, false, false, false, false, false, false, true, false];
    let mut reset = vec![false; 10];
    reset[7] = true;
    reset[9] = true;
    assert_eq!(find_account_line(&limit, &reset), Some(7));
    reset[4] = true;
    reset[5] = true;
    assert_eq!(find_account_line(&limit, &reset), Some(4));
    assert_eq!(find_account_line(&limit, &vec![false; 10]), None);
    assert_eq!(find_account_line(&vec![false; 10], &reset), None);
}

#[test]
fn marks_are_weighed_in_order() {
    let shown = words(&[" a ", " b "]);
    let none = vec![false, false];
    let second = Some(vec![false, true]);
    let by_custom = decide(&shown, &second, &Some(vec![true, false]), &none, &none).unwrap();
    assert_eq!(by_custom.kind, RateLimitKind::AccountLimit);
    assert_eq!(by_custom.message.as_deref(), Some("b"));
    let by_standalone = decide(&shown, &None, &second, &none, &none).unwrap();
    assert_eq!(by_standalone.kind, RateLimitKind::ServerThrottle);
    assert_eq!(by_standalone.message.as_deref(), Some("b"));
    let by_limit = decide(&shown, &None, &None, &vec![false, true], &vec![true, false]).unwrap();
    assert_eq!(by_limit.kind, RateLimitKind::AccountLimit);
    assert_eq!(by_limit.message.as_deref(), Some("a"));
    assert!(decide(&shown, &None, &None, &none, &none).is_none());
}

#[test]
fn texts_are_cut_into_lines() {
    assert_eq!(lines("a\r\nb\n\nc\r"), words(&["a", "b", "", "c\r"]));
    assert!(lines("").is_empty());
    assert_eq!(lines("\n"), words(&[""]));
    assert_eq!(join(&words(&["a", "b"]), "\n"), "a\nb");
    assert_eq!(join(&Vec::new(), "\n"), "");
    assert_eq!(trim("\t x\u{3000}y \n"), "x\u{3000}y");
    assert_eq!(trim("\u{200B}"), "\u{200B}");
    assert!(starts_with("sigue-1", "sigue-"));
    assert!(!starts_with("sigue", "sigue-"));
    assert_eq!(capitalize("tool z"), "Tool z");
    assert_eq!(capitalize("Éa"), "Éa");
    assert_eq!(capitalize("1a"), "1a");
    assert_eq!(capitalize(""), "");
}

#[test]
fn numerals_are_read_and_written() {
    assert_eq!(parse_u64("18446744073709551615"), Some(u64::MAX));
    assert_eq!(parse_u64("18446744073709551616"), None);
    assert_eq!(parse_u32("+007"), Some(7));
    assert_eq!(parse_u32(""), None);
    assert_eq!(parse_u32("+"), None);
    assert_eq!(parse_u32("-1"), None);
    assert_eq!(parse_u32("4294967296"), None);
    assert_eq!(decimal_string(0), "0");
    assert_eq!(decimal_string(u64::MAX), "18446744073709551615");
}

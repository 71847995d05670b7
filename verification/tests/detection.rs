use sigue::patterns::{detect_rate_limit, RateLimitKind};
use sigue::regexp::Pattern;

#[test]
fn detects_type_2b() {
    let text = "API Error: Server is temporarily limiting requests (not your usage limit) · Type 2b rate limited. Please try again later.";
    let result = detect_rate_limit(text, &[]).unwrap();
    assert_eq!(result.kind, RateLimitKind::ServerThrottle);
}

#[test]
fn detects_type_2b_multiline() {
    let text = "Some output\n⚠ API Error: Server is temporarily limiting requests\n· Type 2b rate limited. Please try again later.\nMore text";
    let result = detect_rate_limit(text, &[]).unwrap();
    assert_eq!(result.kind, RateLimitKind::ServerThrottle);
}

#[test]
fn detects_account_limit_with_reset() {
    let text = "⚠ You've hit your 5-hour limit\n· resets 3pm (UTC)";
    let result = detect_rate_limit(text, &[]).unwrap();
    assert_eq!(result.kind, RateLimitKind::AccountLimit);
    assert!(result.message.unwrap().contains("resets 3pm"));
}

#[test]
fn detects_limit_with_try_again() {
    let text = "Usage limit reached\nTry again in 2 hours";
    let result = detect_rate_limit(text, &[]).unwrap();
    assert_eq!(result.kind, RateLimitKind::AccountLimit);
}

#[test]
fn no_false_positive_on_normal_text() {
    let text = "Here is some code that processes rate calculations\nand limits the output to 100 rows.";
    assert!(detect_rate_limit(text, &[]).is_none());
}

#[test]
fn strips_ansi() {
    let text = "\x1b[31mType 2b rate limited\x1b[0m";
    let result = detect_rate_limit(text, &[]).unwrap();
    assert_eq!(result.kind, RateLimitKind::ServerThrottle);
}

#[test]
fn detects_429() {
    let text = "Error 429 Too Many Requests";
    let result = detect_rate_limit(text, &[]).unwrap();
    assert_eq!(result.kind, RateLimitKind::ServerThrottle);
}

#[test]
fn detects_custom_pattern() {
    let text = "Some output\nquota exhausted for this tier\nmore text";
    let custom = vec![Pattern::new(r"(?i)quota exhausted").unwrap()];
    let result = detect_rate_limit(text, &custom).unwrap();
    assert_eq!(result.kind, RateLimitKind::AccountLimit);
    assert!(result.message.unwrap().contains("quota exhausted"));
}

#[test]
fn progress_bar_alone_is_not_a_rate_limit() {
    let text = "5h [######--------------] 32% resets 1h27m  7d [##------------------] 12%";
    assert!(detect_rate_limit(text, &[]).is_none());
}

#[test]
fn text_mentioning_limit_without_action_is_not_a_rate_limit() {
    let text = "The rate limit for this endpoint is 5 requests per second.";
    assert!(detect_rate_limit(text, &[]).is_none());
}

#[test]
fn custom_pattern_takes_precedence() {
    let text = "Type 2b rate limited — this is our override case";
    let custom = vec![Pattern::new(r"(?i)override case").unwrap()];
    let result = detect_rate_limit(text, &custom).unwrap();
    assert_eq!(result.kind, RateLimitKind::AccountLimit);
}

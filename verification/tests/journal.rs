use sigue::config::Config;
use sigue::journal::{start_line, step_line};
use sigue::monitor::{look, Event, Monitor, Phase, Sighting};
use sigue::patterns::{RateLimitDetection, RateLimitKind};

fn line_of(before: Monitor, config: &Config, event: Event) -> Option<String> {
    let mut monitor = before;
    assert!(monitor.is_expecting(&event));
    let reaction = monitor.step(config, "tool", &event);
    step_line(config, "tool", "%3", &before, &event, &reaction)
}

fn at(phase: Phase, retries: u32) -> Monitor {
    Monitor { phase, retries, ..Monitor::new() }
}

fn limit(message: Option<&str>) -> Event {
    let detection = RateLimitDetection {
        kind: RateLimitKind::AccountLimit,
        message: message.map(|m| m.to_string()),
    };
    Event::Screen(Some(Sighting::Limited { detection, wait: Some(3_660) }))
}

fn throttle(config: &Config) -> Event {
    Event::Screen(Some(look("Error 429 Too Many Requests", &[], config)))
}

#[test]
fn start_is_logged() {
    assert_eq!(start_line("%3", 4711), "Monitor started (pane=%3, pid=4711)");
}

#[test]
fn ends_are_logged() {
    let config = Config::default();
    assert_eq!(
        line_of(at(Phase::Polling, 0), &config, Event::Process(false)).as_deref(),
        Some("Tool process exited. Monitor stopping.")
    );
    assert_eq!(line_of(at(Phase::Confirming, 1), &config, Event::Process(false)), None);
    let last = Monitor { errors: 9, ..at(Phase::Reading, 0) };
    assert_eq!(
        line_of(last, &config, Event::Screen(None)).as_deref(),
        Some("Pane gone. Monitor exiting.")
    );
    assert_eq!(line_of(at(Phase::Reading, 0), &config, Event::Screen(None)), None);
    assert_eq!(
        line_of(at(Phase::Reading, 10), &config, throttle(&config)).as_deref(),
        Some("Max consecutive retries (10) reached. Monitor stopping.")
    );
}

#[test]
fn waits_are_logged_by_kind() {
    let config = Config::default();
    assert_eq!(
        line_of(at(Phase::Reading, 2), &config, throttle(&config)).as_deref(),
        Some("Server throttle. Backoff 120s (attempt 3/10).")
    );
    assert_eq!(
        line_of(at(Phase::Reading, 0), &config, limit(Some("resets 3pm"))).as_deref(),
        Some("Account limit: resets 3pm. Waiting 3660s (attempt 1/10).")
    );
    assert_eq!(
        line_of(at(Phase::Reading, 0), &config, limit(None)).as_deref(),
        Some("Account limit: unknown reset time. Waiting 3660s (attempt 1/10).")
    );
}

#[test]
fn recoveries_are_logged() {
    let config = Config::default();
    let clear = || Event::Screen(Some(Sighting::Clear));
    let almost = Monitor { clean_polls: 5, ..at(Phase::Reading, 3) };
    assert_eq!(
        line_of(almost, &config, clear()).as_deref(),
        Some("Tool recovered. Resetting backoff (was at attempt 3).")
    );
    assert_eq!(line_of(at(Phase::Reading, 3), &config, clear()), None);
    let settling = Monitor { waiting: true, ..at(Phase::Reading, 3) };
    assert_eq!(line_of(settling, &config, clear()), None);
    assert_eq!(
        line_of(at(Phase::Rechecking, 3), &config, clear()).as_deref(),
        Some("Rate limit gone after wait — tool recovered on its own, skipping retry.")
    );
}

#[test]
fn retries_are_logged() {
    let config = Config::default();
    let focusing = at(Phase::Focusing, 1);
    assert_eq!(
        line_of(focusing, &config, Event::Foreground(Some("zsh".to_string()))).as_deref(),
        Some("Foreground is 'zsh', not tool — skipping retry. Will re-check on next poll.")
    );
    assert_eq!(
        line_of(focusing, &config, Event::Foreground(None)).as_deref(),
        Some("Foreground is '<unknown>', not tool — skipping retry. Will re-check on next poll.")
    );
    assert_eq!(line_of(focusing, &config, Event::Foreground(Some("tool".to_string()))), None);
    let sending = Monitor { waiting: true, ..at(Phase::Sending, 1) };
    assert_eq!(
        line_of(sending, &config, Event::Done).as_deref(),
        Some("Sent 'continue' to pane %3.")
    );
}

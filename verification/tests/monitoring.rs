use sigue::config::Config;
use sigue::monitor::{
    look, look_again, Command, Event, Monitor, Phase, Reaction, Sighting, StopReason,
};
use sigue::patterns::{RateLimitDetection, RateLimitKind};
use sigue::regexp::Pattern;

const PROGRAM: &str = "tool";

fn throttle() -> Sighting {
    look("Error 429 Too Many Requests", &[], &Config::default())
}

fn limit(wait: Option<u64>) -> Sighting {
    let detection = RateLimitDetection { kind: RateLimitKind::AccountLimit, message: None };
    Sighting::Limited { detection, wait }
}

fn advance(monitor: &mut Monitor, config: &Config, event: Event) -> Reaction {
    assert!(monitor.is_expecting(&event));
    assert!(monitor.can_count());
    monitor.step(config, PROGRAM, &event)
}

fn poll(monitor: &mut Monitor, config: &Config, screen: Option<Sighting>) -> Reaction {
    let checked = advance(monitor, config, Event::Process(true));
    assert!(matches!(checked.command, Command::CaptureScreen));
    let reaction = advance(monitor, config, Event::Screen(screen));
    if matches!(reaction.command, Command::Pause) {
        let resumed = advance(monitor, config, Event::Done);
        assert!(matches!(resumed.command, Command::CheckProcess));
    }
    reaction
}

fn countdown(reaction: &Reaction) -> (u64, String) {
    match &reaction.command {
        Command::Countdown { secs, label } => (*secs, label.clone()),
        other => panic!("no countdown but {:?}", other),
    }
}

fn to_focus(monitor: &mut Monitor, config: &Config) {
    let confirmed = advance(monitor, config, Event::Done);
    assert!(matches!(confirmed.command, Command::CheckProcess));
    let alive = advance(monitor, config, Event::Process(true));
    assert!(matches!(alive.command, Command::RecaptureScreen));
    let still = advance(monitor, config, Event::Screen(Some(throttle())));
    assert!(matches!(still.command, Command::ReadForeground));
}

fn retry(monitor: &mut Monitor, config: &Config) {
    to_focus(monitor, config);
    let sent = advance(monitor, config, Event::Foreground(Some(PROGRAM.to_string())));
    assert!(matches!(sent.command, Command::SendRetry));
    let done = advance(monitor, config, Event::Done);
    assert!(matches!(done.command, Command::CheckProcess));
}

#[test]
fn throttle_is_waited_for_and_retried() {
    let config = Config::default();
    let mut monitor = Monitor::new();
    let reaction = poll(&mut monitor, &config, Some(throttle()));
    assert_eq!(countdown(&reaction), (30, "sigue: throttle retry 1/10 in".to_string()));
    to_focus(&mut monitor, &config);
    let sent = advance(&mut monitor, &config, Event::Foreground(Some("sigue-tool".to_string())));
    assert_eq!(sent.status.as_deref(), Some("sigue: retrying 1/10..."));
    assert!(matches!(sent.command, Command::SendRetry));
    assert!(monitor.waiting);
}

#[test]
fn account_limit_is_waited_for_as_told() {
    let config = Config::default();
    let mut monitor = Monitor::new();
    let screen = "You've hit your 5-hour limit\nTry again in 2 hours";
    let reaction = poll(&mut monitor, &config, Some(look(screen, &[], &config)));
    assert_eq!(countdown(&reaction), (7260, "sigue: limit retry 1/10 in".to_string()));
}

#[test]
fn backoff_doubles_from_retry_to_retry() {
    let config = Config::default();
    let mut monitor = Monitor::new();
    let mut waits = Vec::new();
    for _ in 0..6 {
        waits.push(countdown(&poll(&mut monitor, &config, Some(throttle()))).0);
        retry(&mut monitor, &config);
        poll(&mut monitor, &config, Some(Sighting::Clear));
    }
    assert_eq!(waits, vec![30, 60, 120, 240, 480, 600]);
}

#[test]
fn retries_are_given_up_after_the_maximum() {
    let config = Config { max_retries: 2, ..Config::default() };
    let mut monitor = Monitor::new();
    for _ in 0..2 {
        countdown(&poll(&mut monitor, &config, Some(throttle())));
        retry(&mut monitor, &config);
        poll(&mut monitor, &config, Some(Sighting::Clear));
    }
    let reaction = poll(&mut monitor, &config, Some(throttle()));
    assert_eq!(reaction.status.as_deref(), Some("sigue: max retries reached"));
    assert!(matches!(reaction.command, Command::Stop(StopReason::RetriesExhausted)));
    assert_eq!(monitor.phase, Phase::Stopped);
    assert!(!monitor.is_expecting(&Event::Done));
}

#[test]
fn dead_process_stops_the_monitor() {
    let config = Config::default();
    let mut monitor = Monitor::new();
    let reaction = advance(&mut monitor, &config, Event::Process(false));
    assert!(matches!(reaction.command, Command::Stop(StopReason::ProcessExited)));

    let mut monitor = Monitor::new();
    poll(&mut monitor, &config, Some(throttle()));
    advance(&mut monitor, &config, Event::Done);
    let reaction = advance(&mut monitor, &config, Event::Process(false));
    assert!(matches!(reaction.command, Command::Stop(StopReason::ProcessExited)));
}

#[test]
fn ten_unreadable_screens_stop_the_monitor() {
    let config = Config::default();
    let mut monitor = Monitor::new();
    for _ in 0..9 {
        assert!(matches!(poll(&mut monitor, &config, None).command, Command::Pause));
    }
    let reaction = poll(&mut monitor, &config, None);
    assert!(matches!(reaction.command, Command::Stop(StopReason::PaneGone)));
}

#[test]
fn readable_screen_forgives_unreadable_ones() {
    let config = Config::default();
    let mut monitor = Monitor::new();
    for _ in 0..9 {
        poll(&mut monitor, &config, None);
    }
    poll(&mut monitor, &config, Some(Sighting::Clear));
    assert_eq!(monitor.errors, 0);
    assert!(matches!(poll(&mut monitor, &config, None).command, Command::Pause));
}

#[test]
fn endless_wait_stops_the_monitor() {
    let config = Config::default();
    let mut monitor = Monitor::new();
    let reaction = poll(&mut monitor, &config, Some(limit(None)));
    assert!(matches!(reaction.command, Command::Stop(StopReason::WaitTooLong)));
}

#[test]
fn six_clear_polls_reset_the_backoff() {
    let config = Config::default();
    let mut monitor = Monitor::new();
    poll(&mut monitor, &config, Some(throttle()));
    retry(&mut monitor, &config);
    let settled = poll(&mut monitor, &config, Some(Sighting::Clear));
    assert_eq!(settled.status.as_deref(), Some(""));
    assert!(!monitor.waiting);
    for _ in 0..5 {
        let reaction = poll(&mut monitor, &config, Some(Sighting::Clear));
        assert_eq!(reaction.status, None);
        assert_eq!(monitor.retries, 1);
    }
    let recovered = poll(&mut monitor, &config, Some(Sighting::Clear));
    assert_eq!(recovered.status.as_deref(), Some(""));
    assert_eq!(monitor.retries, 0);
    assert_eq!(countdown(&poll(&mut monitor, &config, Some(throttle()))).0, 30);
}

#[test]
fn clear_polls_must_be_in_a_row() {
    let config = Config::default();
    let mut monitor = Monitor::new();
    for _ in 0..5 {
        poll(&mut monitor, &config, Some(Sighting::Clear));
    }
    poll(&mut monitor, &config, Some(throttle()));
    assert_eq!(monitor.clean_polls, 0);
    assert_eq!(monitor.retries, 1);
}

#[test]
fn stale_message_is_given_up_after_sixty_polls() {
    let config = Config::default();
    let mut monitor = Monitor::new();
    poll(&mut monitor, &config, Some(throttle()));
    retry(&mut monitor, &config);
    for _ in 0..59 {
        assert_eq!(poll(&mut monitor, &config, Some(throttle())).status, None);
        assert!(monitor.waiting);
    }
    let reaction = poll(&mut monitor, &config, Some(throttle()));
    assert_eq!(reaction.status.as_deref(), Some(""));
    assert!(!monitor.waiting);
    let again = poll(&mut monitor, &config, Some(throttle()));
    assert_eq!(countdown(&again), (60, "sigue: throttle retry 2/10 in".to_string()));
}

#[test]
fn recovery_during_the_wait_skips_the_retry() {
    let config = Config::default();
    let mut monitor = Monitor::new();
    poll(&mut monitor, &config, Some(throttle()));
    advance(&mut monitor, &config, Event::Done);
    advance(&mut monitor, &config, Event::Process(true));
    let reaction = advance(&mut monitor, &config, Event::Screen(Some(Sighting::Clear)));
    assert_eq!(reaction.status.as_deref(), Some(""));
    assert!(matches!(reaction.command, Command::CheckProcess));
    assert!(!monitor.waiting);
    assert_eq!(monitor.retries, 0);
    poll(&mut monitor, &config, Some(Sighting::Clear));
    let again = poll(&mut monitor, &config, Some(throttle()));
    assert_eq!(countdown(&again), (30, "sigue: throttle retry 1/10 in".to_string()));
}

#[test]
fn other_foreground_pauses_the_retry() {
    let config = Config::default();
    let mut monitor = Monitor::new();
    poll(&mut monitor, &config, Some(throttle()));
    to_focus(&mut monitor, &config);
    let reaction = advance(&mut monitor, &config, Event::Foreground(Some("zsh".to_string())));
    assert_eq!(reaction.status.as_deref(), Some("sigue: paused (fg=zsh)"));
    assert!(matches!(reaction.command, Command::Pause));
    assert!(!monitor.waiting);

    let mut monitor = Monitor::new();
    poll(&mut monitor, &config, Some(throttle()));
    to_focus(&mut monitor, &config);
    let reaction = advance(&mut monitor, &config, Event::Foreground(None));
    assert_eq!(reaction.status.as_deref(), Some("sigue: paused (fg=<unknown>)"));
}

#[test]
fn outcomes_answer_the_last_command_only() {
    let config = Config::default();
    let mut monitor = Monitor::new();
    assert!(!monitor.is_expecting(&Event::Done));
    assert!(!monitor.is_expecting(&Event::Screen(None)));
    assert!(!monitor.is_expecting(&Event::Foreground(None)));
    poll(&mut monitor, &config, Some(throttle()));
    advance(&mut monitor, &config, Event::Done);
    advance(&mut monitor, &config, Event::Process(true));
    assert_eq!(monitor.phase, Phase::Rechecking);
    assert!(!monitor.is_expecting(&Event::Screen(None)));
}

#[test]
fn full_counters_cannot_count() {
    let full = Monitor { retries: u32::MAX, ..Monitor::new() };
    assert!(!full.can_count());
    let full = Monitor { clean_polls: u32::MAX, ..Monitor::new() };
    assert!(!full.can_count());
}

#[test]
fn unreadable_screen_counts_as_empty_on_the_second_look() {
    let config = Config::default();
    assert!(matches!(look_again(&None, &[], &config), Sighting::Clear));
    let any = vec![Pattern::new("(?i).*").unwrap()];
    assert!(matches!(look_again(&None, &any, &config), Sighting::Limited { .. }));
    let shown = Some("Error 429 Too Many Requests".to_string());
    assert!(matches!(look_again(&shown, &[], &config), Sighting::Limited { .. }));
}

#[test]
fn look_tells_kind_message_and_wait() {
    let config = Config::default();
    match throttle() {
        Sighting::Limited { detection, wait } => {
            assert_eq!(detection.kind, RateLimitKind::ServerThrottle);
            assert_eq!(wait, None);
        }
        Sighting::Clear => panic!("no rate limit seen"),
    }
    let long = "You've hit your limit\nresets in 99999999999999999999 hours";
    match look(long, &[], &config) {
        Sighting::Limited { detection, wait } => {
            assert_eq!(detection.kind, RateLimitKind::AccountLimit);
            assert!(detection.message.is_some());
            assert_eq!(wait, Some(300));
        }
        Sighting::Clear => panic!("no rate limit seen"),
    }
    let too_long = "You've hit your limit\nresets in 18446744073709551615 hours";
    match look(too_long, &[], &config) {
        Sighting::Limited { wait, .. } => assert_eq!(wait, None),
        Sighting::Clear => panic!("no rate limit seen"),
    }
    assert!(matches!(look("all is well", &[], &config), Sighting::Clear));
}

#[test]
fn no_second_retry_is_sent_while_waiting() {
    let config = Config::default();
    let mut monitor = Monitor::new();
    poll(&mut monitor, &config, Some(throttle()));
    retry(&mut monitor, &config);
    for round in 0..59 {
        if round % 10 == 3 {
            assert!(matches!(poll(&mut monitor, &config, None).command, Command::Pause));
        }
        let screen = if round % 2 == 0 { throttle() } else { limit(Some(9)) };
        assert!(matches!(poll(&mut monitor, &config, Some(screen)).command, Command::Pause));
        assert_eq!(monitor.wait_polls, round + 1);
    }
    let last = poll(&mut monitor, &config, Some(throttle()));
    assert_eq!(last.status.as_deref(), Some(""));
    assert!(!monitor.waiting);
}

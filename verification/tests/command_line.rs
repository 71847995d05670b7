use sigue::cli::{is_print_mode, mode, Mode};

fn args(words: &[&str]) -> Vec<String> {
    words.iter().map(|w| w.to_string()).collect()
}

#[test]
fn own_flags_count_in_their_order() {
    assert!(matches!(mode(&args(&["-p", "--status", "--help"]), true), Mode::Help));
    assert!(matches!(mode(&args(&["-V", "-h"]), true), Mode::Help));
    assert!(matches!(mode(&args(&["--status", "-V"]), false), Mode::Version));
    assert!(matches!(mode(&args(&["--version"]), false), Mode::Version));
    assert!(matches!(mode(&args(&["--cleanup", "--list-sessions"]), false), Mode::ListSessions));
    assert!(matches!(mode(&args(&["--logs", "--cleanup"]), false), Mode::Cleanup));
    assert!(matches!(mode(&args(&["--status", "--logs"]), false), Mode::Logs));
    assert!(matches!(mode(&args(&["--status"]), false), Mode::Status));
}

#[test]
fn program_is_run_otherwise() {
    assert!(matches!(mode(&[], true), Mode::Interactive));
    assert!(matches!(mode(&[], false), Mode::NewSession));
    assert!(matches!(mode(&args(&["--verbose"]), false), Mode::NewSession));
    assert!(matches!(mode(&args(&["-p", "hello"]), true), Mode::Print));
    assert!(matches!(mode(&args(&["hello", "--print"]), false), Mode::Print));
}

#[test]
fn monitor_needs_a_pane_and_a_process() {
    match mode(&args(&["__monitor", "%3", "42"]), false) {
        Mode::Monitor { pane, pid } => {
            assert_eq!(pane, "%3");
            assert_eq!(pid, 42);
        }
        other => panic!("{:?}", other),
    }
    assert!(matches!(mode(&args(&["__monitor"]), false), Mode::BadMonitor));
    assert!(matches!(mode(&args(&["__monitor", "%3"]), false), Mode::BadMonitor));
    assert!(matches!(mode(&args(&["__monitor", "%3", "x"]), false), Mode::BadMonitor));
    assert!(matches!(mode(&args(&["__monitor", "%3", "4294967296"]), false), Mode::BadMonitor));
    assert!(matches!(mode(&args(&["x", "__monitor", "%3", "42"]), false), Mode::NewSession));
}

#[test]
fn print_flag_is_found_anywhere() {
    assert!(is_print_mode(&args(&["a", "-p"])));
    assert!(is_print_mode(&args(&["--print", "a"])));
    assert!(!is_print_mode(&args(&["--printer", "-pp", "p"])));
    assert!(!is_print_mode(&[]));
}

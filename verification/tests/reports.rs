use sigue::report::{
    cleanup_report, help_report, kill_report, list_report, no_log_report, status_report,
};

fn names(words: &[&str]) -> Vec<String> {
    words.iter().map(|w| w.to_string()).collect()
}

#[test]
fn sessions_are_listed_with_hints() {
    assert_eq!(
        list_report("sigue-tool", &names(&["sigue-1", "sigue-22"])),
        names(&[
            "Active sigue-tool sessions:",
            "  sigue-1",
            "  sigue-22",
            "",
            "Attach:  tmux attach -t <name>",
            "Kill:    tmux kill-session -t <name>",
            "Kill all: sigue-tool --cleanup",
        ])
    );
    assert_eq!(list_report("sigue-tool", &Vec::new()), names(&["No sigue-tool sessions running."]));
}

#[test]
fn cleanup_is_counted() {
    assert_eq!(kill_report("sigue-1", true), "Killed: sigue-1");
    assert_eq!(kill_report("sigue-1", false), "Failed to kill: sigue-1");
    assert_eq!(
        cleanup_report("sigue-tool", &vec![true, false, true]),
        "Cleaned up 2/3 session(s)."
    );
    assert_eq!(cleanup_report("sigue-tool", &vec![true, true]), "Cleaned up 2/2 session(s).");
    assert_eq!(cleanup_report("sigue-tool", &Vec::new()), "No sigue-tool sessions to clean up.");
}

#[test]
fn status_shows_version_sessions_and_logs() {
    let today = Some("/h/.x/logs/2026-01-02.log".to_string());
    assert_eq!(
        status_report("sigue-tool", "0.1.0", &names(&["sigue-1"]), "/h/.x/logs", &today),
        names(&[
            "sigue-tool v0.1.0",
            "",
            "Active sessions:",
            "  sigue-1",
            "",
            "Log dir: /h/.x/logs",
            "Today's log: /h/.x/logs/2026-01-02.log",
        ])
    );
    assert_eq!(
        status_report("sigue-tool", "0.1.0", &Vec::new(), "/h/.x/logs", &None),
        names(&[
            "sigue-tool v0.1.0",
            "",
            "Active sessions: none",
            "",
            "Log dir: /h/.x/logs",
            "Today's log: (none yet)",
        ])
    );
    assert_eq!(
        no_log_report("/h/.x/logs"),
        names(&["No logs for today yet.", "Log dir: /h/.x/logs"])
    );
}

#[test]
fn help_names_the_wrapper_and_its_program() {
    let help = help_report("sigue-tool", "tool");
    assert_eq!(help.len(), 30);
    assert_eq!(help[0], "sigue-tool — auto-retry wrapper for Tool Code rate limits");
    assert_eq!(help[2], "Usage: sigue-tool [tool args...]");
    assert_eq!(help[4], "Wraps the `tool` CLI. Detects rate limits (server throttles");
    assert_eq!(help[13], "  --cleanup             kill all sigue-tool tmux sessions");
    assert_eq!(help[19], "Logs: ~/.sigue-tool/logs/YYYY-MM-DD.log (auto-rotates, 7-day retention)");
    assert_eq!(help[21], "Config: ~/.sigue-tool.json (optional)");
    assert_eq!(help[26], "  retry_message        — what to send (default: \"continue\")");
}

use sigue::shell::{inner_command, shell_escape};
use sigue::tmux::{
    attach_session, capture_pane, capture_pane_args, configure_status_bar, create_session,
    current_pane, current_pane_args, find_claude_binary, kill_session, kill_session_args,
    list_sessions, list_sessions_args, list_sigue_sessions, looks_like_claude,
    pane_current_command, pane_current_command_args, process_alive, process_alive_args, send_keys,
    session_for_pane, session_for_pane_args, session_name, set_sigue_state, wrapped_program,
    wrapper_name, Reply,
};

fn reply(success: bool, text: &str) -> Option<Reply> {
    Some(Reply { success, stdout: text.as_bytes().to_vec() })
}

fn words(list: &[&str]) -> Vec<String> {
    list.iter().map(|w| w.to_string()).collect()
}

#[test]
fn commands_have_their_arguments() {
    assert_eq!(current_pane_args(), words(&["display-message", "-p", "#{pane_id}"]));
    assert_eq!(capture_pane_args("%3"), words(&["capture-pane", "-t", "%3", "-p"]));
    assert_eq!(send_keys("%3", "go on"), words(&["send-keys", "-t", "%3", "go on", "Enter"]));
    assert_eq!(process_alive_args(4711), words(&["-0", "4711"]));
    assert_eq!(create_session("s", "cmd x"), words(&["new-session", "-d", "-s", "s", "cmd x"]));
    assert_eq!(attach_session("s"), words(&["attach-session", "-t", "s"]));
    assert_eq!(list_sessions_args(), words(&["list-sessions", "-F", "#{session_name}"]));
    assert_eq!(kill_session_args("s"), words(&["kill-session", "-t", "s"]));
    assert_eq!(
        session_for_pane_args("%3"),
        words(&["display-message", "-p", "-t", "%3", "#{session_name}"])
    );
    assert_eq!(
        pane_current_command_args("%3"),
        words(&["display-message", "-p", "-t", "%3", "#{pane_current_command}"])
    );
    assert_eq!(
        set_sigue_state("s", "busy"),
        words(&["set-option", "-t", "s", "@sigue_state", "busy"])
    );
}

#[test]
fn status_bar_is_configured_in_five_steps() {
    let commands = configure_status_bar("s");
    assert_eq!(commands.len(), 5);
    assert_eq!(commands[0], words(&["set-option", "-t", "s", "status", "on"]));
    assert_eq!(commands[1], words(&["set-option", "-t", "s", "status-right-length", "120"]));
    assert_eq!(commands[2][3], "status-right");
    assert!(commands[2][4].ends_with("#{@sigue_state} #[default] }%H:%M"));
    assert_eq!(commands[3], words(&["set-option", "-t", "s", "status-interval", "1"]));
    assert_eq!(commands[4], words(&["set-option", "-t", "s", "@sigue_state", ""]));
}

#[test]
fn replies_are_trimmed_and_failures_are_none() {
    assert_eq!(current_pane(&reply(true, " %3\n")).as_deref(), Some("%3"));
    assert_eq!(current_pane(&reply(true, "\u{2003}%3\u{85}")).as_deref(), Some("%3"));
    assert_eq!(current_pane(&reply(false, "%3")), None);
    assert_eq!(current_pane(&None), None);
    assert_eq!(session_for_pane(&reply(true, "main\n")).as_deref(), Some("main"));
    assert_eq!(pane_current_command(&reply(true, "node\n")).as_deref(), Some("node"));
    assert_eq!(capture_pane(&reply(true, " a \n\n")).as_deref(), Some(" a \n\n"));
    assert_eq!(capture_pane(&reply(false, "a")), None);
    let broken = Some(Reply { success: true, stdout: vec![b'x', 0xC3, 0x28] });
    assert_eq!(capture_pane(&broken).as_deref(), Some("x\u{FFFD}("));
}

#[test]
fn commands_that_fail_or_cannot_run_are_refusals() {
    assert!(process_alive(Some(true)));
    assert!(!process_alive(Some(false)));
    assert!(!process_alive(None));
    assert!(kill_session(Some(true)));
    assert!(!kill_session(Some(false)));
    assert!(!kill_session(None));
}

#[test]
fn own_sessions_are_found_among_all() {
    let all = list_sessions(&reply(true, "main\nsigue-12\r\nsigueX\nsigue-7\n"));
    assert_eq!(all, words(&["main", "sigue-12", "sigueX", "sigue-7"]));
    assert_eq!(list_sigue_sessions(&all), words(&["sigue-12", "sigue-7"]));
    assert!(list_sessions(&reply(false, "main\n")).is_empty());
    assert!(list_sessions(&None).is_empty());
    assert_eq!(list_sigue_sessions(&vec![session_name(99)]), words(&["sigue-99"]));
}

#[test]
fn program_is_found_by_path_or_name() {
    assert_eq!(find_claude_binary(&reply(true, "/usr/bin/tool\n"), "tool"), "/usr/bin/tool");
    assert_eq!(find_claude_binary(&reply(false, ""), "tool"), "tool");
    assert_eq!(find_claude_binary(&None, "tool"), "tool");
}

#[test]
fn wrapper_is_named_after_its_program() {
    assert_eq!(wrapped_program("sigue-tool"), "tool");
    assert_eq!(wrapped_program("tool"), "tool");
    assert_eq!(wrapped_program("sigue-"), "");
    assert_eq!(wrapper_name("tool"), "sigue-tool");
    assert_eq!(wrapped_program(&wrapper_name("x")), "x");
}

#[test]
fn watched_commands_are_recognised() {
    for name in ["tool", "node", "sigue-tool"] {
        assert!(looks_like_claude(&Some(name.to_string()), "tool"));
    }
    for name in ["zsh", "Tool", "sigue-other", ""] {
        assert!(!looks_like_claude(&Some(name.to_string()), "tool"));
    }
    assert!(!looks_like_claude(&None, "tool"));
}

#[test]
fn arguments_are_quoted_for_the_shell() {
    assert_eq!(shell_escape("plain"), "'plain'");
    assert_eq!(shell_escape(""), "''");
    assert_eq!(shell_escape("it's $HOME"), "'it'\\''s $HOME'");
    assert_eq!(
        inner_command("/bin/sigue-tool", &words(&["-x", "a b"])),
        "CLAUDE_AUTO_RETRY_ACTIVE=1 '/bin/sigue-tool' '-x' 'a b'"
    );
    assert_eq!(inner_command("p", &Vec::new()), "CLAUDE_AUTO_RETRY_ACTIVE=1 'p' ");
}

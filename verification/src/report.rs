//! What is shown of the usage, the sessions and the logs, line by line.

use vstd::prelude::*;

use crate::numeral::{decimal, decimal_string};
use crate::text::{capitalize, capitalized};

verus! {

/// The sessions, each on an indented line.
pub open spec fn indented(sessions: Seq<Seq<char>>) -> Seq<Seq<char>> {
    sessions.map_values(|session: Seq<char>| "  "@ + session)
}

fn push_indented(lines: &mut Vec<String>, sessions: &Vec<String>)
    ensures
        final(lines).deep_view() == old(lines).deep_view() + indented(sessions.deep_view()),
{
    let ghost start = lines.deep_view();
    let ghost all = indented(sessions.deep_view());
    let mut i: usize = 0;
    assert(start =~= start + all.take(0));
    while i < sessions.len()
        invariant
            i <= sessions@.len(),
            all == indented(sessions.deep_view()),
            lines.deep_view() == start + all.take(i as int),
        decreases sessions@.len() - i,
    {
        let ghost before = lines.deep_view();
        lines.push("  ".to_owned().concat(sessions[i].as_str()));
        assert(lines.deep_view() =~= before.push(all[i as int]));
        i += 1;
        assert(lines.deep_view() =~= start + all.take(i as int));
    }
    assert(all.take(all.len() as int) == all);
}

fn push_line(lines: &mut Vec<String>, line: String)
    ensures
        final(lines).deep_view() == old(lines).deep_view().push(line@),
{
    let ghost before = lines.deep_view();
    let ghost text = line@;
    lines.push(line);
    assert(lines.deep_view() =~= before.push(text));
}

/// The list of the sessions of the program with a name, and what can be done with them.
pub open spec fn session_list(name: Seq<char>, sessions: Seq<Seq<char>>) -> Seq<Seq<char>> {
    if sessions.len() == 0 {
        seq!["No "@ + name + " sessions running."@]
    } else {
        seq!["Active "@ + name + " sessions:"@] + indented(sessions) + seq![
            ""@,
            "Attach:  tmux attach -t <name>"@,
            "Kill:    tmux kill-session -t <name>"@,
            "Kill all: "@ + name + " --cleanup"@,
        ]
    }
}

/// Lists the sessions of the program with a name.
pub fn list_report(name: &str, sessions: &Vec<String>) -> (r: Vec<String>)
    ensures
        r.deep_view() == session_list(name@, sessions.deep_view()),
{
    let mut lines: Vec<String> = Vec::new();
    if sessions.len() == 0 {
        push_line(&mut lines, "No ".to_owned().concat(name).concat(" sessions running."));
    } else {
        push_line(&mut lines, "Active ".to_owned().concat(name).concat(" sessions:"));
        push_indented(&mut lines, sessions);
        push_line(&mut lines, "".to_owned());
        push_line(&mut lines, "Attach:  tmux attach -t <name>".to_owned());
        push_line(&mut lines, "Kill:    tmux kill-session -t <name>".to_owned());
        push_line(&mut lines, "Kill all: ".to_owned().concat(name).concat(" --cleanup"));
    }
    assert(lines.deep_view() =~= session_list(name@, sessions.deep_view()));
    lines
}

/// How many of the attempts to kill a session succeeded.
pub open spec fn successes(outcomes: Seq<bool>) -> nat
    decreases outcomes.len(),
{
    if outcomes.len() == 0 {
        0
    } else {
        successes(outcomes.drop_last()) + if outcomes.last() {
            1nat
        } else {
            0
        }
    }
}

/// What is shown of a session that was to be killed.
pub open spec fn kill_line(session: Seq<char>, killed: bool) -> Seq<char> {
    if killed {
        "Killed: "@ + session
    } else {
        "Failed to kill: "@ + session
    }
}

/// Tells of a session whether it was killed.
pub fn kill_report(session: &str, killed: bool) -> (r: String)
    ensures
        r@ == kill_line(session@, killed),
{
    if killed {
        "Killed: ".to_owned().concat(session)
    } else {
        "Failed to kill: ".to_owned().concat(session)
    }
}

/// What is shown once all sessions were to be killed: how many were, or that there were none.
pub open spec fn cleanup_line(name: Seq<char>, outcomes: Seq<bool>) -> Seq<char> {
    if outcomes.len() == 0 {
        "No "@ + name + " sessions to clean up."@
    } else {
        "Cleaned up "@ + decimal(successes(outcomes)) + "/"@ + decimal(outcomes.len())
            + " session(s)."@
    }
}

/// Sums up which sessions were killed.
pub fn cleanup_report(name: &str, outcomes: &Vec<bool>) -> (r: String)
    ensures
        r@ == cleanup_line(name@, outcomes@),
{
    if outcomes.len() == 0 {
        return "No ".to_owned().concat(name).concat(" sessions to clean up.");
    }
    let mut killed: u64 = 0;
    let mut i: usize = 0;
    while i < outcomes.len()
        invariant
            i <= outcomes@.len(),
            killed <= i,
            killed == successes(outcomes@.take(i as int)),
        decreases outcomes@.len() - i,
    {
        assert(outcomes@.take(i + 1).drop_last() == outcomes@.take(i as int));
        if outcomes[i] {
            killed += 1;
        }
        i += 1;
    }
    assert(outcomes@.take(outcomes@.len() as int) == outcomes@);
    "Cleaned up ".to_owned().concat(decimal_string(killed).as_str()).concat("/").concat(
        decimal_string(outcomes.len() as u64).as_str(),
    ).concat(" session(s).")
}

/// No more sessions are killed than there are, and all of them only if each was killed.
pub proof fn cleanup_counts(outcomes: Seq<bool>)
    ensures
        successes(outcomes) <= outcomes.len(),
        successes(outcomes) == outcomes.len() <==> forall|i: int|
            0 <= i < outcomes.len() ==> outcomes[i],
    decreases outcomes.len(),
{
    if outcomes.len() > 0 {
        let rest = outcomes.drop_last();
        cleanup_counts(rest);
        if successes(outcomes) == outcomes.len() {
            assert forall|i: int| 0 <= i < outcomes.len() implies outcomes[i] by {
                if i < rest.len() {
                    assert(rest[i]);
                }
            }
        }
        if forall|i: int| 0 <= i < outcomes.len() ==> outcomes[i] {
            assert(outcomes[outcomes.len() - 1]);
            assert forall|i: int| 0 <= i < rest.len() implies rest[i] by {
                assert(outcomes[i]);
            }
        }
    }
}

/// The state of the program with a name: its version, its sessions, and where its logs lie, with
/// the path of today's log if there is one.
pub open spec fn status_lines(
    name: Seq<char>,
    version: Seq<char>,
    sessions: Seq<Seq<char>>,
    log_dir: Seq<char>,
    today: Option<Seq<char>>,
) -> Seq<Seq<char>> {
    seq![name + " v"@ + version, ""@] + if sessions.len() == 0 {
        seq!["Active sessions: none"@]
    } else {
        seq!["Active sessions:"@] + indented(sessions)
    } + seq![
        ""@,
        "Log dir: "@ + log_dir,
        "Today's log: "@ + match today {
            Some(path) => path,
            None => "(none yet)"@,
        },
    ]
}

/// Tells the state of the program with a name.
pub fn status_report(
    name: &str,
    version: &str,
    sessions: &Vec<String>,
    log_dir: &str,
    today: &Option<String>,
) -> (r: Vec<String>)
    ensures
        r.deep_view() == status_lines(
            name@,
            version@,
            sessions.deep_view(),
            log_dir@,
            today.deep_view(),
        ),
{
    let mut lines: Vec<String> = Vec::new();
    push_line(&mut lines, name.to_owned().concat(" v").concat(version));
    push_line(&mut lines, "".to_owned());
    if sessions.len() == 0 {
        push_line(&mut lines, "Active sessions: none".to_owned());
    } else {
        push_line(&mut lines, "Active sessions:".to_owned());
        push_indented(&mut lines, sessions);
    }
    push_line(&mut lines, "".to_owned());
    push_line(&mut lines, "Log dir: ".to_owned().concat(log_dir));
    let path: &str = match today {
        Some(path) => path.as_str(),
        None => "(none yet)",
    };
    push_line(&mut lines, "Today's log: ".to_owned().concat(path));
    assert(lines.deep_view() =~= status_lines(
        name@,
        version@,
        sessions.deep_view(),
        log_dir@,
        today.deep_view(),
    ));
    lines
}

/// What is shown where there is no log for today.
pub fn no_log_report(log_dir: &str) -> (r: Vec<String>)
    ensures
        r.deep_view() == seq!["No logs for today yet."@, "Log dir: "@ + log_dir@],
{
    let mut lines: Vec<String> = Vec::new();
    push_line(&mut lines, "No logs for today yet.".to_owned());
    push_line(&mut lines, "Log dir: ".to_owned().concat(log_dir));
    assert(lines.deep_view() =~= seq!["No logs for today yet."@, "Log dir: "@ + log_dir@]);
    lines
}

/// The title of the product that a program belongs to.
pub open spec fn product(program: Seq<char>) -> Seq<char> {
    capitalized(program) + " Code"@
}

/// How the program with a name is used, which wraps another program.
pub open spec fn help_text(name: Seq<char>, program: Seq<char>) -> Seq<Seq<char>> {
    seq![
        name + " — auto-retry wrapper for "@ + product(program) + " rate limits"@,
        ""@,
        "Usage: "@ + name + " ["@ + program + " args...]"@,
        ""@,
        "Wraps the `"@ + program + "` CLI. Detects rate limits (server throttles"@,
        "and account limits) and automatically retries with backoff."@,
        ""@,
        "Modes:"@,
        "  Interactive (default) — runs inside tmux, monitors pane text"@,
        "  Print (-p/--print)    — captures output, retries on limit"@,
        ""@,
        "Commands:"@,
        "  --list-sessions       list all "@ + name + " tmux sessions"@,
        "  --cleanup             kill all "@ + name + " tmux sessions"@,
        "  --status              show version, active sessions, log path"@,
        "  --logs                print today's log file"@,
        "  --version, -V         print version"@,
        "  --help, -h            show this help"@,
        ""@,
        "Logs: ~/."@ + name + "/logs/YYYY-MM-DD.log (auto-rotates, 7-day retention)"@,
        ""@,
        "Config: ~/."@ + name + ".json (optional)"@,
        "  max_retries          — max attempts (default: 10)"@,
        "  poll_interval_secs   — tmux poll frequency (default: 5)"@,
        "  margin_secs          — extra wait after reset (default: 60)"@,
        "  fallback_wait_secs   — wait when time unparseable (default: 300)"@,
        "  retry_message        — what to send (default: \"continue\")"@,
        "  throttle_base_secs   — initial backoff for 2b errors (default: 30)"@,
        "  throttle_max_secs    — max backoff cap (default: 600)"@,
        "  custom_patterns      — extra regex patterns to detect (default: [])"@,
    ]
}

/// Tells how the program with a name is used, which wraps another program.
pub fn help_report(name: &str, program: &str) -> (r: Vec<String>)
    ensures
        r.deep_view() == help_text(name@, program@),
{
    let title = capitalize(program).concat(" Code");
    let mut lines: Vec<String> = Vec::new();
    push_line(&mut lines, name.to_owned().concat(" — auto-retry wrapper for ").concat(title.as_str()).concat(" rate limits"));
    push_line(&mut lines, "".to_owned());
    push_line(&mut lines, "Usage: ".to_owned().concat(name).concat(" [").concat(program).concat(" args...]"));
    push_line(&mut lines, "".to_owned());
    push_line(&mut lines, "Wraps the `".to_owned().concat(program).concat("` CLI. Detects rate limits (server throttles"));
    push_line(&mut lines, "and account limits) and automatically retries with backoff.".to_owned());
    push_line(&mut lines, "".to_owned());
    push_line(&mut lines, "Modes:".to_owned());
    push_line(&mut lines, "  Interactive (default) — runs inside tmux, monitors pane text".to_owned());
    push_line(&mut lines, "  Print (-p/--print)    — captures output, retries on limit".to_owned());
    push_line(&mut lines, "".to_owned());
    push_line(&mut lines, "Commands:".to_owned());
    push_line(&mut lines, "  --list-sessions       list all ".to_owned().concat(name).concat(" tmux sessions"));
    push_line(&mut lines, "  --cleanup             kill all ".to_owned().concat(name).concat(" tmux sessions"));
    push_line(&mut lines, "  --status              show version, active sessions, log path".to_owned());
    push_line(&mut lines, "  --logs                print today's log file".to_owned());
    push_line(&mut lines, "  --version, -V         print version".to_owned());
    push_line(&mut lines, "  --help, -h            show this help".to_owned());
    push_line(&mut lines, "".to_owned());
    push_line(&mut lines, "Logs: ~/.".to_owned().concat(name).concat("/logs/YYYY-MM-DD.log (auto-rotates, 7-day retention)"));
    push_line(&mut lines, "".to_owned());
    push_line(&mut lines, "Config: ~/.".to_owned().concat(name).concat(".json (optional)"));
    push_line(&mut lines, "  max_retries          — max attempts (default: 10)".to_owned());
    push_line(&mut lines, "  poll_interval_secs   — tmux poll frequency (default: 5)".to_owned());
    push_line(&mut lines, "  margin_secs          — extra wait after reset (default: 60)".to_owned());
    push_line(&mut lines, "  fallback_wait_secs   — wait when time unparseable (default: 300)".to_owned());
    push_line(&mut lines, "  retry_message        — what to send (default: \"continue\")".to_owned());
    push_line(&mut lines, "  throttle_base_secs   — initial backoff for 2b errors (default: 30)".to_owned());
    push_line(&mut lines, "  throttle_max_secs    — max backoff cap (default: 600)".to_owned());
    push_line(&mut lines, "  custom_patterns      — extra regex patterns to detect (default: [])".to_owned());
    assert(lines.deep_view() =~= help_text(name@, program@));
    lines
}

/// Every session is listed on a line of its own, in its order, between the heading and the hints.
pub proof fn sessions_are_listed(name: Seq<char>, sessions: Seq<Seq<char>>)
    ensures
        ({
            let lines = session_list(name, sessions);
            let n = sessions.len() as int;
            &&& n == 0 ==> lines == seq!["No "@ + name + " sessions running."@]
            &&& n > 0 ==> {
                &&& lines.len() == n + 5
                &&& lines[0] == "Active "@ + name + " sessions:"@
                &&& forall|i: int| 0 <= i < n ==> lines[i + 1] == "  "@ + #[trigger] sessions[i]
                &&& lines[n + 1] == ""@
                &&& lines[n + 2] == "Attach:  tmux attach -t <name>"@
                &&& lines[n + 3] == "Kill:    tmux kill-session -t <name>"@
                &&& lines[n + 4] == "Kill all: "@ + name + " --cleanup"@
            }
        }),
{
}

/// The killed sessions are counted one by one, and told of by their number among all.
pub proof fn killed_sessions_are_counted(
    name: Seq<char>,
    session: Seq<char>,
    outcomes: Seq<bool>,
)
    ensures
        successes(Seq::empty()) == 0,
        successes(outcomes.push(true)) == successes(outcomes) + 1,
        successes(outcomes.push(false)) == successes(outcomes),
        outcomes.len() > 0 ==> cleanup_line(name, outcomes) == "Cleaned up "@ + decimal(
            successes(outcomes),
        ) + "/"@ + decimal(outcomes.len()) + " session(s)."@,
        cleanup_line(name, Seq::empty()) == "No "@ + name + " sessions to clean up."@,
        kill_line(session, true) == "Killed: "@ + session,
        kill_line(session, false) == "Failed to kill: "@ + session,
{
    assert(outcomes.push(true).drop_last() =~= outcomes);
    assert(outcomes.push(false).drop_last() =~= outcomes);
}

/// The status begins with the version, shows every session on a line of its own, and ends with the
/// directory of the logs and today's log.
pub proof fn status_shows_all(
    name: Seq<char>,
    version: Seq<char>,
    sessions: Seq<Seq<char>>,
    log_dir: Seq<char>,
    today: Option<Seq<char>>,
)
    ensures
        ({
            let lines = status_lines(name, version, sessions, log_dir, today);
            let n = sessions.len() as int;
            let end = lines.len() as int;
            &&& end == 6 + n
            &&& lines[0] == name + " v"@ + version
            &&& lines[1] == ""@
            &&& n == 0 ==> lines[2] == "Active sessions: none"@
            &&& n > 0 ==> lines[2] == "Active sessions:"@
            &&& forall|i: int| 0 <= i < n ==> lines[i + 3] == "  "@ + #[trigger] sessions[i]
            &&& lines[end - 3] == ""@
            &&& lines[end - 2] == "Log dir: "@ + log_dir
            &&& match today {
                Some(path) => lines[end - 1] == "Today's log: "@ + path,
                None => lines[end - 1] == "Today's log: (none yet)"@,
            }
        }),
{
    reveal_strlit("Today's log: ");
    reveal_strlit("(none yet)");
    reveal_strlit("Today's log: (none yet)");
    assert("Today's log: "@ + "(none yet)"@ =~= "Today's log: (none yet)"@);
}

/// The help names the wrapper and the program wherever it speaks of them, and each flag.
pub proof fn help_names_the_program(name: Seq<char>, program: Seq<char>)
    ensures
        ({
            let lines = help_text(name, program);
            &&& lines.len() == 30
            &&& lines[0] == name + " — auto-retry wrapper for "@ + (capitalized(program) + " Code"@)
                + " rate limits"@
            &&& lines[2] == "Usage: "@ + name + " ["@ + program + " args...]"@
            &&& lines[4] == "Wraps the `"@ + program
                + "` CLI. Detects rate limits (server throttles"@
            &&& lines[12] == "  --list-sessions       list all "@ + name + " tmux sessions"@
            &&& lines[13] == "  --cleanup             kill all "@ + name + " tmux sessions"@
            &&& lines[14] == "  --status              show version, active sessions, log path"@
            &&& lines[15] == "  --logs                print today's log file"@
            &&& lines[16] == "  --version, -V         print version"@
            &&& lines[17] == "  --help, -h            show this help"@
            &&& lines[19] == "Logs: ~/."@ + name
                + "/logs/YYYY-MM-DD.log (auto-rotates, 7-day retention)"@
            &&& lines[21] == "Config: ~/."@ + name + ".json (optional)"@
            &&& lines[22] == "  max_retries          — max attempts (default: 10)"@
        }),
{
}

} // verus!

//! The arguments of the commands that drive tmux, and what their replies say.
//!
//! A function named like a question reads the reply to a command whose arguments the function of
//! the same name with `_args` builds. A function named like an order builds arguments.

use vstd::prelude::*;

use crate::numeral::{decimal, decimal_string, numeral_is_read_back};
use crate::text::{
    begins_with, chars_of, decode, decoded, lines, lines_of, prefix_and_rest, same, starts_with,
    string_of, trim, trimmed,
};

verus! {

/// What a command printed, and whether it succeeded.
#[derive(Debug)]
pub struct Reply {
    pub success: bool,
    pub stdout: Vec<u8>,
}

/// What a command printed, if it could be run and succeeded.
pub open spec fn printed(reply: Option<Reply>) -> Option<Seq<char>> {
    match reply {
        Some(r) if r.success => Some(decoded(r.stdout@)),
        _ => None,
    }
}

/// What a command printed without the white space around it, if it could be run and succeeded.
pub open spec fn printed_trimmed(reply: Option<Reply>) -> Option<Seq<char>> {
    match printed(reply) {
        Some(text) => Some(trimmed(text)),
        None => None,
    }
}

fn output(reply: &Option<Reply>) -> (r: Option<String>)
    ensures
        r.deep_view() == printed(*reply),
{
    match reply {
        Some(r) => {
            if r.success {
                Some(decode(&r.stdout))
            } else {
                None
            }
        },
        None => None,
    }
}

fn trimmed_output(reply: &Option<Reply>) -> (r: Option<String>)
    ensures
        r.deep_view() == printed_trimmed(*reply),
{
    match output(reply) {
        Some(text) => Some(trim(text.as_str())),
        None => None,
    }
}

fn owned(parts: Vec<&str>) -> (r: Vec<String>)
    ensures
        r.deep_view() == parts.deep_view(),
{
    let mut out: Vec<String> = Vec::new();
    let mut i: usize = 0;
    while i < parts.len()
        invariant
            i <= parts@.len(),
            out.deep_view() == parts.deep_view().take(i as int),
        decreases parts@.len() - i,
    {
        let ghost before = out.deep_view();
        out.push(parts[i].to_owned());
        assert(out.deep_view() =~= before.push(parts@[i as int]@));
        i += 1;
        assert(out.deep_view() =~= parts.deep_view().take(i as int));
    }
    assert(out.deep_view() =~= parts.deep_view());
    out
}

/// Asks for the current tmux pane.
pub fn current_pane_args() -> (r: Vec<String>)
    ensures
        r.deep_view() == seq!["display-message"@, "-p"@, "#{pane_id}"@],
{
    let parts = vec!["display-message", "-p", "#{pane_id}"];
    assert(parts.deep_view() =~= seq!["display-message"@, "-p"@, "#{pane_id}"@]);
    owned(parts)
}

/// The identifier of the current tmux pane, such as "%3".
pub fn current_pane(reply: &Option<Reply>) -> (r: Option<String>)
    ensures
        r.deep_view() == printed_trimmed(*reply),
{
    trimmed_output(reply)
}

/// Asks for the visible text of a pane.
pub fn capture_pane_args(pane: &str) -> (r: Vec<String>)
    ensures
        r.deep_view() == seq!["capture-pane"@, "-t"@, pane@, "-p"@],
{
    let parts = vec!["capture-pane", "-t", pane, "-p"];
    assert(parts.deep_view() =~= seq!["capture-pane"@, "-t"@, pane@, "-p"@]);
    owned(parts)
}

/// The visible text of a pane.
pub fn capture_pane(reply: &Option<Reply>) -> (r: Option<String>)
    ensures
        r.deep_view() == printed(*reply),
{
    output(reply)
}

/// Sends keystrokes to a pane.
pub fn send_keys(pane: &str, text: &str) -> (r: Vec<String>)
    ensures
        r.deep_view() == seq!["send-keys"@, "-t"@, pane@, text@, "Enter"@],
{
    let parts = vec!["send-keys", "-t", pane, text, "Enter"];
    assert(parts.deep_view() =~= seq!["send-keys"@, "-t"@, pane@, text@, "Enter"@]);
    owned(parts)
}

/// Asks whether a process is still running: the arguments are those of `kill`.
pub fn process_alive_args(pid: u32) -> (r: Vec<String>)
    ensures
        r.deep_view() == seq!["-0"@, decimal(pid as nat)],
{
    let number = decimal_string(pid as u64);
    let parts = vec!["-0", number.as_str()];
    assert(parts.deep_view() =~= seq!["-0"@, decimal(pid as nat)]);
    owned(parts)
}

/// Whether a process is still running, of whether the command succeeded, if it could be run.
pub fn process_alive(status: Option<bool>) -> (r: bool)
    ensures
        r == (status == Some(true)),
{
    match status {
        Some(success) => success,
        None => false,
    }
}

/// Creates a session and runs a command inside it.
pub fn create_session(session_name: &str, command: &str) -> (r: Vec<String>)
    ensures
        r.deep_view() == seq!["new-session"@, "-d"@, "-s"@, session_name@, command@],
{
    let parts = vec!["new-session", "-d", "-s", session_name, command];
    assert(parts.deep_view() =~= seq!["new-session"@, "-d"@, "-s"@, session_name@, command@]);
    owned(parts)
}

/// Attaches to an existing session.
pub fn attach_session(session_name: &str) -> (r: Vec<String>)
    ensures
        r.deep_view() == seq!["attach-session"@, "-t"@, session_name@],
{
    let parts = vec!["attach-session", "-t", session_name];
    assert(parts.deep_view() =~= seq!["attach-session"@, "-t"@, session_name@]);
    owned(parts)
}

/// Asks for the names of all sessions.
pub fn list_sessions_args() -> (r: Vec<String>)
    ensures
        r.deep_view() == seq!["list-sessions"@, "-F"@, "#{session_name}"@],
{
    let parts = vec!["list-sessions", "-F", "#{session_name}"];
    assert(parts.deep_view() =~= seq!["list-sessions"@, "-F"@, "#{session_name}"@]);
    owned(parts)
}

/// The names of all sessions. There are none if tmux is not running.
pub fn list_sessions(reply: &Option<Reply>) -> (r: Vec<String>)
    ensures
        r.deep_view() == match printed(*reply) {
            Some(text) => lines_of(text),
            None => Seq::empty(),
        },
{
    match output(reply) {
        Some(text) => lines(text.as_str()),
        None => {
            let none: Vec<String> = Vec::new();
            assert(none.deep_view() =~= Seq::empty());
            none
        },
    }
}

/// Kills a session by name.
pub fn kill_session_args(session_name: &str) -> (r: Vec<String>)
    ensures
        r.deep_view() == seq!["kill-session"@, "-t"@, session_name@],
{
    let parts = vec!["kill-session", "-t", session_name];
    assert(parts.deep_view() =~= seq!["kill-session"@, "-t"@, session_name@]);
    owned(parts)
}

/// Whether a session was killed, of whether the command succeeded, if it could be run.
pub fn kill_session(status: Option<bool>) -> (r: bool)
    ensures
        r == (status == Some(true)),
{
    match status {
        Some(success) => success,
        None => false,
    }
}

/// Asks for the session that owns a pane.
pub fn session_for_pane_args(pane: &str) -> (r: Vec<String>)
    ensures
        r.deep_view() == seq!["display-message"@, "-p"@, "-t"@, pane@, "#{session_name}"@],
{
    let parts = vec!["display-message", "-p", "-t", pane, "#{session_name}"];
    assert(parts.deep_view() =~= seq![
        "display-message"@,
        "-p"@,
        "-t"@,
        pane@,
        "#{session_name}"@,
    ]);
    owned(parts)
}

/// The name of the session that owns a pane.
pub fn session_for_pane(reply: &Option<Reply>) -> (r: Option<String>)
    ensures
        r.deep_view() == printed_trimmed(*reply),
{
    trimmed_output(reply)
}

/// Asks for the command that runs in the foreground of a pane.
pub fn pane_current_command_args(pane: &str) -> (r: Vec<String>)
    ensures
        r.deep_view() == seq![
            "display-message"@,
            "-p"@,
            "-t"@,
            pane@,
            "#{pane_current_command}"@,
        ],
{
    let parts = vec!["display-message", "-p", "-t", pane, "#{pane_current_command}"];
    assert(parts.deep_view() =~= seq![
        "display-message"@,
        "-p"@,
        "-t"@,
        pane@,
        "#{pane_current_command}"@,
    ]);
    owned(parts)
}

/// The name of the command that runs in the foreground of a pane.
pub fn pane_current_command(reply: &Option<Reply>) -> (r: Option<String>)
    ensures
        r.deep_view() == printed_trimmed(*reply),
{
    trimmed_output(reply)
}

/// Sets the state that the status bar of a session shows.
pub fn set_sigue_state(session: &str, state: &str) -> (r: Vec<String>)
    ensures
        r.deep_view() == option_args(session@, "@sigue_state"@, state@),
{
    set_option(session, "@sigue_state", state)
}

/// The arguments that set an option of a session.
pub open spec fn option_args(session: Seq<char>, option: Seq<char>, value: Seq<char>) -> Seq<
    Seq<char>,
> {
    seq!["set-option"@, "-t"@, session, option, value]
}

fn set_option(session: &str, option: &str, value: &str) -> (r: Vec<String>)
    ensures
        r.deep_view() == option_args(session@, option@, value@),
{
    let parts = vec!["set-option", "-t", session, option, value];
    assert(parts.deep_view() =~= option_args(session@, option@, value@));
    owned(parts)
}

/// The right end of the status bar: the state, highlighted where there is one, and the time.
pub const STATUS_RIGHT: &'static str =
    "#{?#{==:#{@sigue_state},},,#[fg=black,bg=yellow,bold] #{@sigue_state} #[default] }%H:%M";

/// Configures the status bar of a session to show the state, which is empty at first, and to
/// refresh each second.
pub fn configure_status_bar(session: &str) -> (r: Vec<Vec<String>>)
    ensures
        r.deep_view() == seq![
            option_args(session@, "status"@, "on"@),
            option_args(session@, "status-right-length"@, "120"@),
            option_args(session@, "status-right"@, STATUS_RIGHT@),
            option_args(session@, "status-interval"@, "1"@),
            option_args(session@, "@sigue_state"@, ""@),
        ],
{
    let r = vec![
        set_option(session, "status", "on"),
        set_option(session, "status-right-length", "120"),
        set_option(session, "status-right", STATUS_RIGHT),
        set_option(session, "status-interval", "1"),
        set_option(session, "@sigue_state", ""),
    ];
    assert(r.deep_view() =~= seq![
        option_args(session@, "status"@, "on"@),
        option_args(session@, "status-right-length"@, "120"@),
        option_args(session@, "status-right"@, STATUS_RIGHT@),
        option_args(session@, "status-interval"@, "1"@),
        option_args(session@, "@sigue_state"@, ""@),
    ]);
    r
}

/// The name of the session that a process opens.
pub open spec fn session_name_of(pid: nat) -> Seq<char> {
    "sigue-"@ + decimal(pid)
}

/// Names the session that a process opens.
pub fn session_name(pid: u32) -> (r: String)
    ensures
        r@ == session_name_of(pid as nat),
{
    "sigue-".to_owned().concat(decimal_string(pid as u64).as_str())
}

/// Those of the sessions that belong to this program, in their order.
pub open spec fn own_sessions(sessions: Seq<Seq<char>>) -> Seq<Seq<char>>
    decreases sessions.len(),
{
    if sessions.len() == 0 {
        Seq::empty()
    } else if begins_with(sessions.last(), "sigue-"@) {
        own_sessions(sessions.drop_last()).push(sessions.last())
    } else {
        own_sessions(sessions.drop_last())
    }
}

/// Selects the sessions that belong to this program.
pub fn list_sigue_sessions(sessions: &Vec<String>) -> (r: Vec<String>)
    ensures
        r.deep_view() == own_sessions(sessions.deep_view()),
{
    let mut out: Vec<String> = Vec::new();
    let ghost all = sessions.deep_view();
    let mut i: usize = 0;
    assert(out.deep_view() =~= own_sessions(all.take(0)));
    while i < sessions.len()
        invariant
            i <= sessions@.len(),
            all == sessions.deep_view(),
            out.deep_view() == own_sessions(all.take(i as int)),
        decreases sessions@.len() - i,
    {
        assert(all.take(i + 1).drop_last() == all.take(i as int));
        if starts_with(sessions[i].as_str(), "sigue-") {
            let ghost before = out.deep_view();
            out.push(sessions[i].clone());
            assert(out.deep_view() =~= before.push(sessions@[i as int]@));
        }
        i += 1;
    }
    assert(all.take(all.len() as int) == all);
    out
}

/// A session that a process of this program opened is found among all sessions, and no session of
/// another kind is.
pub proof fn own_session_is_found(sessions: Seq<Seq<char>>, name: Seq<char>)
    ensures
        own_sessions(sessions).contains(name) <==> sessions.contains(name) && begins_with(
            name,
            "sigue-"@,
        ),
        forall|pid: nat| begins_with(#[trigger] session_name_of(pid), "sigue-"@),
    decreases sessions.len(),
{
    assert forall|pid: nat| begins_with(#[trigger] session_name_of(pid), "sigue-"@) by {
        let mark = "sigue-"@;
        assert((mark + decimal(pid)).take(mark.len() as int) =~= mark);
    }
    if sessions.len() > 0 {
        let last = sessions.last();
        let rest = sessions.drop_last();
        own_session_is_found(rest, name);
        assert(sessions =~= rest.push(last));
        assert(sessions.contains(name) <==> rest.contains(name) || name == last) by {
            if rest.contains(name) {
                let i = choose|i: int| 0 <= i < rest.len() && rest[i] == name;
                assert(sessions[i] == name);
            }
            if name == last {
                assert(sessions[sessions.len() - 1] == name);
            }
        }
        let own = own_sessions(rest);
        assert(own.push(last).contains(name) <==> own.contains(name) || name == last) by {
            if own.contains(name) {
                let i = choose|i: int| 0 <= i < own.len() && own[i] == name;
                assert(own.push(last)[i] == name);
            }
            if name == last {
                assert(own.push(last)[own.len() as int] == name);
            }
        }
    }
}

/// The name of this program where it wraps `program`: it is installed under the name of the
/// wrapped program behind a prefix.
pub open spec fn wrapper_of(program: Seq<char>) -> Seq<char> {
    "sigue-"@ + program
}

/// Names this program where it wraps `program`.
pub fn wrapper_name(program: &str) -> (r: String)
    ensures
        r@ == wrapper_of(program@),
{
    "sigue-".to_owned().concat(program)
}

/// The program that is wrapped, of the name that this program was started under: what follows
/// the prefix, or the whole name where there is no prefix.
pub open spec fn wrapped_by(own_name: Seq<char>) -> Seq<char> {
    if begins_with(own_name, "sigue-"@) {
        own_name.skip("sigue-"@.len() as int)
    } else {
        own_name
    }
}

/// Tells which program is wrapped, of the name that this program was started under.
pub fn wrapped_program(own_name: &str) -> (r: String)
    ensures
        r@ == wrapped_by(own_name@),
{
    if starts_with(own_name, "sigue-") {
        let all = chars_of(own_name);
        proof {
            reveal_strlit("sigue-");
            assert(all@.subrange(6, all@.len() as int) =~= own_name@.skip(6));
        }
        string_of(&all, 6, all.len())
    } else {
        own_name.to_owned()
    }
}

/// The wrapper of a program wraps that program.
pub proof fn wrapper_wraps(program: Seq<char>)
    ensures
        wrapped_by(wrapper_of(program)) == program,
{
    let prefix = "sigue-"@;
    assert((prefix + program).take(prefix.len() as int) =~= prefix);
    assert((prefix + program).skip(prefix.len() as int) =~= program);
}

/// The program to run: the path that `which` printed for it, or just its name.
pub open spec fn program_path(reply: Option<Reply>, program: Seq<char>) -> Seq<char> {
    match printed_trimmed(reply) {
        Some(path) => path,
        None => program,
    }
}

/// Finds the program to run in the reply to `which`.
pub fn find_claude_binary(reply: &Option<Reply>, program: &str) -> (r: String)
    ensures
        r@ == program_path(*reply, program@),
{
    match trimmed_output(reply) {
        Some(path) => path,
        None => program.to_owned(),
    }
}

/// Whether the command in the foreground of a pane is the wrapped program, the interpreter that
/// it runs on, or its wrapper.
pub open spec fn is_watched(foreground: Option<Seq<char>>, program: Seq<char>) -> bool {
    ||| foreground == Some(program)
    ||| foreground == Some("node"@)
    ||| foreground == Some(wrapper_of(program))
}

/// Tells whether the command in the foreground of a pane is the one that is watched.
pub fn looks_like_claude(foreground: &Option<String>, program: &str) -> (r: bool)
    ensures
        r == is_watched(foreground.deep_view(), program@),
{
    match foreground {
        Some(name) => same(name.as_str(), program) || same(name.as_str(), "node") || same(
            name.as_str(),
            wrapper_name(program).as_str(),
        ),
        None => false,
    }
}

/// The retry message may go to three commands and no other: the program that is wrapped, the
/// interpreter that it runs on, and its wrapper. Where the command is not known it goes to none.
pub proof fn watched_commands(name: Seq<char>, program: Seq<char>)
    ensures
        is_watched(Some(name), program) <==> name == program || name == "node"@ || name == "sigue-"@
            + program,
        !is_watched(None, program),
{
}

/// The reply to a command is what it printed, if it could be run and succeeded, and without the
/// white space around it where it is a name.
pub proof fn replies_are_read(stdout: Vec<u8>, program: Seq<char>)
    ensures
        ({
            let good = Some(Reply { success: true, stdout });
            let bad = Some(Reply { success: false, stdout });
            &&& printed(good) == Some(decoded(stdout@))
            &&& printed_trimmed(good) == Some(trimmed(decoded(stdout@)))
            &&& program_path(good, program) == trimmed(decoded(stdout@))
            &&& printed(bad) is None
            &&& printed_trimmed(bad) is None
            &&& program_path(bad, program) == program
            &&& printed(None) is None
            &&& printed_trimmed(None) is None
            &&& program_path(None, program) == program
        }),
{
}

/// Two processes open sessions of different names.
pub proof fn session_names_differ(a: nat, b: nat)
    requires
        session_name_of(a) == session_name_of(b),
    ensures
        a == b,
{
    let mark = "sigue-"@;
    assert((mark + decimal(a)).skip(mark.len() as int) =~= decimal(a));
    assert((mark + decimal(b)).skip(mark.len() as int) =~= decimal(b));
    numeral_is_read_back(a);
    numeral_is_read_back(b);
}

/// The sessions of this program are selected in their order.
pub proof fn own_sessions_in_order(sessions: Seq<Seq<char>>, rest: Seq<char>, other: Seq<char>)
    requires
        forall|tail: Seq<char>| other != #[trigger] ("sigue-"@ + tail),
    ensures
        own_sessions(Seq::empty()) == Seq::<Seq<char>>::empty(),
        own_sessions(sessions.push("sigue-"@ + rest)) == own_sessions(sessions).push(
            "sigue-"@ + rest,
        ),
        own_sessions(sessions.push(other)) == own_sessions(sessions),
{
    assert(sessions.push("sigue-"@ + rest).drop_last() =~= sessions);
    assert(sessions.push(other).drop_last() =~= sessions);
    prefix_and_rest(other, "sigue-"@, rest);
}

/// A program that was not started as a wrapper wraps the program of its own name.
pub proof fn other_names_wrap_themselves(name: Seq<char>)
    requires
        forall|tail: Seq<char>| name != #[trigger] ("sigue-"@ + tail),
    ensures
        wrapped_by(name) == name,
{
    prefix_and_rest(name, "sigue-"@, name);
}

/// A session and the wrapper are named by the prefix and the number of the process or the name of
/// the program. An option of a session is set by its name and its value, and the right end of the
/// status bar shows the state, where there is one, and the time.
pub proof fn names_and_options(
    pid: nat,
    program: Seq<char>,
    session: Seq<char>,
    option: Seq<char>,
    value: Seq<char>,
)
    ensures
        session_name_of(pid) == "sigue-"@ + decimal(pid),
        wrapper_of(program) == "sigue-"@ + program,
        option_args(session, option, value).len() == 5,
        option_args(session, option, value)[0] == "set-option"@,
        option_args(session, option, value)[1] == "-t"@,
        option_args(session, option, value)[2] == session,
        option_args(session, option, value)[3] == option,
        option_args(session, option, value)[4] == value,
        STATUS_RIGHT@
            == "#{?#{==:#{@sigue_state},},,#[fg=black,bg=yellow,bold] #{@sigue_state} #[default] }%H:%M"@,
{
}

} // verus!

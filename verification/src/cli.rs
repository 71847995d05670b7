//! What the command line asks for.

use vstd::prelude::*;

use crate::numeral::{numeral, numeral_up_to, parse_u32};
use crate::text::same;

verus! {

/// What the command line asks for.
#[derive(Debug)]
pub enum Mode {
    /// Show how this program is used.
    Help,
    /// Show the version.
    Version,
    /// List the sessions of this program.
    ListSessions,
    /// Kill the sessions of this program.
    Cleanup,
    /// Show today's log.
    Logs,
    /// Show the version, the sessions and the logs.
    Status,
    /// Watch a pane until a process exits.
    Monitor { pane: String, pid: u32 },
    /// Watch a pane, without a pane or a process.
    BadMonitor,
    /// Run the program to its end, and again after a rate limit.
    Print,
    /// Run the program in the current session, and watch its pane.
    Interactive,
    /// Run the program in a session of its own.
    NewSession,
}

/// What the command line asks for, by what it says.
pub enum Request {
    Help,
    Version,
    ListSessions,
    Cleanup,
    Logs,
    Status,
    Monitor(Seq<char>, nat),
    BadMonitor,
    Print,
    Interactive,
    NewSession,
}

impl View for Mode {
    type V = Request;

    open spec fn view(&self) -> Request {
        match self {
            Mode::Help => Request::Help,
            Mode::Version => Request::Version,
            Mode::ListSessions => Request::ListSessions,
            Mode::Cleanup => Request::Cleanup,
            Mode::Logs => Request::Logs,
            Mode::Status => Request::Status,
            Mode::Monitor { pane, pid } => Request::Monitor(pane@, *pid as nat),
            Mode::BadMonitor => Request::BadMonitor,
            Mode::Print => Request::Print,
            Mode::Interactive => Request::Interactive,
            Mode::NewSession => Request::NewSession,
        }
    }
}

/// Whether the arguments hold a flag that is written in one of two ways.
pub open spec fn has_flag(args: Seq<Seq<char>>, long: Seq<char>, short: Seq<char>) -> bool {
    args.contains(long) || args.contains(short)
}

/// Whether the program is to print its answer and exit.
pub open spec fn asks_to_print(args: Seq<Seq<char>>) -> bool {
    has_flag(args, "--print"@, "-p"@)
}

/// What arguments that begin with the monitor's name ask for: its pane and process follow.
pub open spec fn monitor_request(args: Seq<Seq<char>>) -> Request {
    if args.len() < 3 {
        Request::BadMonitor
    } else {
        match numeral_up_to(args[2], u32::MAX as nat) {
            Some(pid) => Request::Monitor(args[1], pid),
            None => Request::BadMonitor,
        }
    }
}

/// What the arguments ask for. The flags of this program count wherever they stand, and those
/// higher up in this list before those further down.
pub open spec fn request(args: Seq<Seq<char>>, inside_tmux: bool) -> Request {
    if has_flag(args, "--help"@, "-h"@) {
        Request::Help
    } else if has_flag(args, "--version"@, "-V"@) {
        Request::Version
    } else if args.contains("--list-sessions"@) {
        Request::ListSessions
    } else if args.contains("--cleanup"@) {
        Request::Cleanup
    } else if args.contains("--logs"@) {
        Request::Logs
    } else if args.contains("--status"@) {
        Request::Status
    } else if args.len() > 0 && args[0] == "__monitor"@ {
        monitor_request(args)
    } else if asks_to_print(args) {
        Request::Print
    } else if inside_tmux {
        Request::Interactive
    } else {
        Request::NewSession
    }
}

fn has(args: &[String], flag: &str) -> (r: bool)
    ensures
        r == args.deep_view().contains(flag@),
{
    let mut i: usize = 0;
    while i < args.len()
        invariant
            i <= args@.len(),
            forall|j: int| 0 <= j < i ==> args@[j]@ != flag@,
        decreases args@.len() - i,
    {
        if same(args[i].as_str(), flag) {
            assert(args.deep_view()[i as int] == flag@);
            return true;
        }
        i += 1;
    }
    assert(!args.deep_view().contains(flag@)) by {
        if args.deep_view().contains(flag@) {
            let j = choose|j: int| 0 <= j < args@.len() && args.deep_view()[j] == flag@;
            assert(args@[j]@ == flag@);
        }
    }
    false
}

/// Tells whether the program is to print its answer and exit.
pub fn is_print_mode(args: &[String]) -> (r: bool)
    ensures
        r == asks_to_print(args.deep_view()),
{
    has(args, "-p") || has(args, "--print")
}

fn monitor_mode(args: &[String]) -> (r: Mode)
    ensures
        r@ == monitor_request(args.deep_view()),
{
    if args.len() < 3 {
        return Mode::BadMonitor;
    }
    match parse_u32(args[2].as_str()) {
        Some(pid) => Mode::Monitor { pane: args[1].clone(), pid },
        None => Mode::BadMonitor,
    }
}

/// Tells what the arguments ask for.
pub fn mode(args: &[String], inside_tmux: bool) -> (r: Mode)
    ensures
        r@ == request(args.deep_view(), inside_tmux),
{
    if has(args, "--help") || has(args, "-h") {
        Mode::Help
    } else if has(args, "--version") || has(args, "-V") {
        Mode::Version
    } else if has(args, "--list-sessions") {
        Mode::ListSessions
    } else if has(args, "--cleanup") {
        Mode::Cleanup
    } else if has(args, "--logs") {
        Mode::Logs
    } else if has(args, "--status") {
        Mode::Status
    } else if args.len() > 0 && same(args[0].as_str(), "__monitor") {
        monitor_mode(args)
    } else if is_print_mode(args) {
        Mode::Print
    } else if inside_tmux {
        Mode::Interactive
    } else {
        Mode::NewSession
    }
}

/// The flags of this program count wherever they stand among the arguments, each before those that
/// are named after it. Without them the program is run, in the mode that its own flag or tmux asks
/// for.
pub proof fn flags_decide(args: Seq<Seq<char>>, inside_tmux: bool)
    ensures
        ({
            let asked = request(args, inside_tmux);
            let help = args.contains("--help"@) || args.contains("-h"@);
            let version = args.contains("--version"@) || args.contains("-V"@);
            let list = args.contains("--list-sessions"@);
            let cleanup = args.contains("--cleanup"@);
            let logs = args.contains("--logs"@);
            let status = args.contains("--status"@);
            let own = help || version || list || cleanup || logs || status;
            let monitor = args.len() > 0 && args[0] == "__monitor"@;
            let print = args.contains("-p"@) || args.contains("--print"@);
            &&& help ==> asked == Request::Help
            &&& version && !help ==> asked == Request::Version
            &&& list && !help && !version ==> asked == Request::ListSessions
            &&& cleanup && !help && !version && !list ==> asked == Request::Cleanup
            &&& logs && !help && !version && !list && !cleanup ==> asked == Request::Logs
            &&& status && !help && !version && !list && !cleanup && !logs ==> asked
                == Request::Status
            &&& print && !own && !monitor ==> asked == Request::Print
            &&& !print && !own && !monitor && inside_tmux ==> asked == Request::Interactive
            &&& !print && !own && !monitor && !inside_tmux ==> asked == Request::NewSession
        }),
        asks_to_print(args) == (args.contains("-p"@) || args.contains("--print"@)),
{
}

/// The monitor is asked for by its name, the pane and the number of the process. Without a pane and
/// a number of 32 bits the arguments are bad.
pub proof fn monitor_is_asked_for(args: Seq<Seq<char>>, inside_tmux: bool, pid: nat)
    requires
        args.len() > 0,
        args[0] == "__monitor"@,
        !args.contains("--help"@),
        !args.contains("-h"@),
        !args.contains("--version"@),
        !args.contains("-V"@),
        !args.contains("--list-sessions"@),
        !args.contains("--cleanup"@),
        !args.contains("--logs"@),
        !args.contains("--status"@),
    ensures
        args.len() >= 3 && numeral(args[2]) == Some(pid) && pid <= 4_294_967_295 ==> request(
            args,
            inside_tmux,
        ) == Request::Monitor(args[1], pid),
        args.len() >= 3 && numeral(args[2]) == Some(pid) && pid > 4_294_967_295 ==> request(
            args,
            inside_tmux,
        ) == Request::BadMonitor,
        args.len() >= 3 && numeral(args[2]) is None ==> request(args, inside_tmux)
            == Request::BadMonitor,
        args.len() < 3 ==> request(args, inside_tmux) == Request::BadMonitor,
{
}

/// A mode is seen as what it holds.
pub proof fn modes_show_what_they_hold(pane: String, pid: u32)
    ensures
        Mode::Help@ == Request::Help,
        Mode::Version@ == Request::Version,
        Mode::ListSessions@ == Request::ListSessions,
        Mode::Cleanup@ == Request::Cleanup,
        Mode::Logs@ == Request::Logs,
        Mode::Status@ == Request::Status,
        (Mode::Monitor { pane, pid })@ == Request::Monitor(pane@, pid as nat),
        Mode::BadMonitor@ == Request::BadMonitor,
        Mode::Print@ == Request::Print,
        Mode::Interactive@ == Request::Interactive,
        Mode::NewSession@ == Request::NewSession,
{
}

} // verus!

//! Running the program to its end, and again after a rate limit.

use vstd::prelude::*;

use crate::config::{backoff, backoff_doubles, Config};
use crate::monitor::{attempt_string, attempt_text, look, sees, Sighting};
use crate::numeral::{decimal, decimal_string};
use crate::patterns::{RateLimitDetection, RateLimitKind};
use crate::regexp::Pattern;
use crate::text::{decode, decoded};

verus! {

/// A finished run of the program.
#[derive(Debug)]
pub struct Run {
    /// The exit code, unless a signal ended the program.
    pub code: Option<i32>,
    pub stdout: Vec<u8>,
    pub stderr: Vec<u8>,
}

/// The exit code of this program for one of another program: its lowest byte, or `missing` where
/// there is none.
pub open spec fn exit_code(code: Option<i32>, missing: u8) -> int {
    match code {
        Some(c) => c as int % 256,
        None => missing as int,
    }
}

/// Turns the exit code of another program into one of this program.
pub fn exit_byte(code: Option<i32>, missing: u8) -> (r: u8)
    ensures
        r == exit_code(code, missing),
{
    match code {
        Some(c) => match (c as i64).checked_rem_euclid(256) {
            Some(low) => low as u8,
            None => missing,
        },
        None => missing,
    }
}

/// What follows a run.
#[derive(Debug, Clone, Copy, PartialEq, Eq, Structural)]
pub enum Next {
    /// Show what the program printed, and exit with this code.
    Finish(u8),
    /// Show what the program printed, and exit as failed.
    GiveUp,
    /// Sleep for some seconds, and run the program again.
    Retry(u64),
    /// The wait until the limit resets does not fit in 64 bits.
    WaitTooLong,
}

/// What follows a run, and what is reported of it.
#[derive(Debug)]
pub struct Verdict {
    pub next: Next,
    pub notice: Option<String>,
}

/// The report on a rate limit that is not waited for.
pub open spec fn give_up_notice(max: nat) -> Seq<char> {
    "Max retries ("@ + decimal(max) + ") reached. Giving up."@
}

/// The report on a server throttle.
pub open spec fn throttle_notice(secs: nat, attempt: nat, max: nat) -> Seq<char> {
    "Server throttle detected. Backoff "@ + decimal(secs) + "s (attempt "@ + attempt_text(
        attempt,
        max,
    ) + ")."@
}

/// The report on an account limit.
pub open spec fn limit_notice(
    message: Option<Seq<char>>,
    secs: nat,
    attempt: nat,
    max: nat,
) -> Seq<char> {
    "Account limit hit: "@ + match message {
        Some(text) => text,
        None => "unknown reset time"@,
    } + ". Waiting "@ + decimal(secs) + "s (attempt "@ + attempt_text(attempt, max) + ")."@
}

/// What follows a run after `retries` earlier ones, of what is seen in its output: without a rate
/// limit the end, and with one a wait, unless there were too many retries.
pub open spec fn verdict(
    config: Config,
    retries: nat,
    sighting: Sighting,
    code: Option<i32>,
) -> (Next, Option<Seq<char>>) {
    let max = config.max_retries as nat;
    let attempt = retries + 1;
    match sighting {
        Sighting::Clear => (Next::Finish(exit_code(code, 1) as u8), None),
        Sighting::Limited { detection, wait } => if attempt > max {
            (Next::GiveUp, Some(give_up_notice(max)))
        } else {
            match (detection.kind, wait) {
                (RateLimitKind::ServerThrottle, _) => {
                    let secs = backoff(
                        config.throttle_base_secs as nat,
                        config.throttle_max_secs as nat,
                        attempt,
                    );
                    (Next::Retry(secs as u64), Some(throttle_notice(secs, attempt, max)))
                },
                (RateLimitKind::AccountLimit, Some(secs)) => (
                    Next::Retry(secs),
                    Some(limit_notice(detection@.1, secs as nat, attempt, max)),
                ),
                (RateLimitKind::AccountLimit, None) => (Next::WaitTooLong, None),
            }
        },
    }
}

/// Decides what follows a run, of what is seen in its output.
pub fn decide_run(config: &Config, retries: u32, sighting: &Sighting, code: Option<i32>) -> (r:
    Verdict)
    requires
        retries < u32::MAX,
    ensures
        (r.next, r.notice.deep_view()) == verdict(*config, retries as nat, *sighting, code),
{
    match sighting {
        Sighting::Clear => Verdict { next: Next::Finish(exit_byte(code, 1)), notice: None },
        Sighting::Limited { detection, wait } => {
            let attempt: u32 = retries + 1;
            if attempt > config.max_retries {
                let notice = "Max retries (".to_owned().concat(
                    decimal_string(config.max_retries as u64).as_str(),
                ).concat(") reached. Giving up.");
                return Verdict { next: Next::GiveUp, notice: Some(notice) };
            }
            let count = attempt_string(attempt, config.max_retries);
            match detection.kind {
                RateLimitKind::ServerThrottle => {
                    let secs: u64 = config.throttle_backoff(attempt);
                    let notice = "Server throttle detected. Backoff ".to_owned().concat(
                        decimal_string(secs).as_str(),
                    ).concat("s (attempt ").concat(count.as_str()).concat(").");
                    Verdict { next: Next::Retry(secs), notice: Some(notice) }
                },
                RateLimitKind::AccountLimit => match wait {
                    Some(secs) => {
                        let message: &str = match &detection.message {
                            Some(text) => text.as_str(),
                            None => "unknown reset time",
                        };
                        let notice = "Account limit hit: ".to_owned().concat(message).concat(
                            ". Waiting ",
                        ).concat(decimal_string(*secs).as_str()).concat("s (attempt ").concat(
                            count.as_str(),
                        ).concat(").");
                        Verdict { next: Next::Retry(*secs), notice: Some(notice) }
                    },
                    None => Verdict { next: Next::WaitTooLong, notice: None },
                },
            }
        },
    }
}

/// All that a run printed: first what went to the standard output, then what went to the error
/// output.
pub open spec fn run_text(run: Run) -> Seq<char> {
    decoded(run.stdout@) + decoded(run.stderr@)
}

/// Looks for a rate limit in the output of a run, and decides what follows.
pub fn judge_run(config: &Config, custom: &[Pattern], retries: u32, run: &Run) -> (r: Verdict)
    requires
        retries < u32::MAX,
    ensures
        exists|sighting: Sighting|
            {
                &&& #[trigger] sees(
                    sighting,
                    decoded(run.stdout@) + decoded(run.stderr@),
                    custom.deep_view(),
                    config.margin_secs as nat,
                    config.fallback_wait_secs as nat,
                )
                &&& (r.next, r.notice.deep_view()) == verdict(
                    *config,
                    retries as nat,
                    sighting,
                    run.code,
                )
            },
{
    let text = decode(&run.stdout).concat(decode(&run.stderr).as_str());
    assert(text@ == run_text(*run));
    let sighting = look(text.as_str(), custom, config);
    decide_run(config, retries, &sighting, run.code)
}

/// Whether the program is run again after each run in a row, of what is seen in their outputs.
pub open spec fn all_retried(config: Config, sightings: Seq<Sighting>) -> bool {
    forall|k: nat|
        k < sightings.len() ==> (#[trigger] verdict(config, k, sightings[k as int], None)).0 is Retry
}

/// The program is run again no more often than the settings allow.
pub proof fn reruns_are_limited(config: Config, sightings: Seq<Sighting>)
    requires
        all_retried(config, sightings),
    ensures
        sightings.len() <= config.max_retries,
{
    if sightings.len() > 0 {
        let last = (sightings.len() - 1) as nat;
        assert(verdict(config, last, sightings[last as int], None).0 is Retry);
    }
}

/// A run is judged by all that it printed: the whole of its standard output, and behind it the
/// whole of its error output, whatever either of them holds.
pub proof fn all_output_is_judged(run: Run)
    ensures
        ({
            let out = decoded(run.stdout@);
            let err = decoded(run.stderr@);
            &&& run_text(run).len() == out.len() + err.len()
            &&& run_text(run).subrange(0, out.len() as int) == out
            &&& run_text(run).subrange(out.len() as int, (out.len() + err.len()) as int) == err
        }),
{
    let out = decoded(run.stdout@);
    let err = decoded(run.stderr@);
    assert(run_text(run).subrange(0, out.len() as int) =~= out);
    assert(run_text(run).subrange(out.len() as int, (out.len() + err.len()) as int) =~= err);
}

/// An exit code is a byte that differs from the code of the program by a multiple of 256. A code
/// that is a byte is kept, and a missing one is replaced.
pub proof fn exit_codes_are_bytes(code: i32, missing: u8)
    ensures
        0 <= exit_code(Some(code), missing) < 256,
        (code - exit_code(Some(code), missing)) % 256 == 0,
        0 <= code < 256 ==> exit_code(Some(code), missing) == code,
        exit_code(None, missing) == missing,
{
}

/// A run without a rate limit ends with its exit code, whatever came before it.
pub proof fn run_without_limit_ends(config: Config, retries: nat, code: Option<i32>)
    ensures
        verdict(config, retries, Sighting::Clear, code).0 matches Next::Finish(byte) && match code {
            Some(c) => (c - byte) % 256 == 0,
            None => byte == 1,
        },
        verdict(config, retries, Sighting::Clear, code).1 is None,
{
}

/// A run with a rate limit is repeated after its wait as long as fewer retries than the maximum
/// were made, whatever its exit code, and else given up.
pub proof fn run_with_limit_is_repeated(
    config: Config,
    retries: nat,
    detection: RateLimitDetection,
    wait: Option<u64>,
    code: Option<i32>,
)
    ensures
        ({
            let (next, notice) = verdict(
                config,
                retries,
                Sighting::Limited { detection, wait },
                code,
            );
            let max = config.max_retries as nat;
            let count = decimal(retries + 1) + "/"@ + decimal(max);
            let secs = backoff(
                config.throttle_base_secs as nat,
                config.throttle_max_secs as nat,
                retries + 1,
            );
            &&& retries >= max ==> next == Next::GiveUp && notice == Some(
                "Max retries ("@ + decimal(max) + ") reached. Giving up."@,
            )
            &&& retries < max && detection.kind == RateLimitKind::ServerThrottle ==> {
                &&& next matches Next::Retry(n) && n == secs
                &&& notice == Some(
                    "Server throttle detected. Backoff "@ + decimal(secs) + "s (attempt "@ + count
                        + ")."@,
                )
            }
            &&& retries < max && detection.kind == RateLimitKind::AccountLimit ==> match wait {
                Some(n) => {
                    &&& next == Next::Retry(n)
                    &&& notice == Some(
                        "Account limit hit: "@ + match detection.message {
                            Some(message) => message@,
                            None => "unknown reset time"@,
                        } + ". Waiting "@ + decimal(n as nat) + "s (attempt "@ + count + ")."@,
                    )
                },
                None => next == Next::WaitTooLong && notice is None,
            }
        }),
{
    backoff_doubles(
        config.throttle_base_secs as nat,
        config.throttle_max_secs as nat,
        retries + 1,
    );
}

} // verus!

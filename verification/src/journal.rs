//! What is written to the log of the watching of a pane.

use vstd::prelude::*;

use crate::config::{backoff, Config};
use crate::monitor::{
    attempt_string, attempt_text, Command, Event, Input, Monitor, Order, Phase, Reaction, Seen,
    Setup, Sighting, StopReason,
};
use crate::numeral::{decimal, decimal_string};
use crate::patterns::RateLimitKind;
use crate::text::{capitalize, capitalized};

verus! {

/// What the lines of the log depend on besides the steps of the monitor.
pub struct Subject {
    pub program: Seq<char>,
    pub pane: Seq<char>,
    pub max_retries: nat,
    pub retry_message: Seq<char>,
}

/// What the settings, the program and the pane make of the lines of the log.
pub open spec fn subject(config: Config, program: Seq<char>, pane: Seq<char>) -> Subject {
    Subject {
        program,
        pane,
        max_retries: config.max_retries as nat,
        retry_message: config.retry_message@,
    }
}

/// The first line of the log of a monitor.
pub open spec fn start_text(pane: Seq<char>, pid: nat) -> Seq<char> {
    "Monitor started (pane="@ + pane + ", pid="@ + decimal(pid) + ")"@
}

/// Writes the first line of the log of a monitor.
pub fn start_line(pane: &str, pid: u32) -> (r: String)
    ensures
        r@ == start_text(pane@, pid as nat),
{
    "Monitor started (pane=".to_owned().concat(pane).concat(", pid=").concat(
        decimal_string(pid as u64).as_str(),
    ).concat(")")
}

/// The line on a rate limit that is waited for.
pub open spec fn wait_text(
    kind: RateLimitKind,
    message: Option<Seq<char>>,
    secs: nat,
    attempt: nat,
    max: nat,
) -> Seq<char> {
    let start = match kind {
        RateLimitKind::ServerThrottle => "Server throttle. Backoff "@,
        RateLimitKind::AccountLimit => "Account limit: "@ + match message {
            Some(text) => text,
            None => "unknown reset time"@,
        } + ". Waiting "@,
    };
    start + decimal(secs) + "s (attempt "@ + attempt_text(attempt, max) + ")."@
}

impl Subject {
    /// The line of the log on a step, if there is one, of the state before it, the outcome that it
    /// took and what it gave. A process that is found dead after a wait is not told of, nor is the
    /// end of the wait for a retry to take effect.
    pub open spec fn line(
        self,
        before: Monitor,
        input: Input,
        status: Option<Seq<char>>,
        order: Order,
    ) -> Option<Seq<char>> {
        match (before.phase, input, order) {
            (Phase::Polling, _, Order::Stop(_)) => Some(
                capitalized(self.program) + " process exited. Monitor stopping."@,
            ),
            (Phase::Reading, _, Order::Stop(StopReason::PaneGone)) => Some(
                "Pane gone. Monitor exiting."@,
            ),
            (Phase::Reading, _, Order::Stop(StopReason::RetriesExhausted)) => Some(
                "Max consecutive retries ("@ + decimal(self.max_retries)
                    + ") reached. Monitor stopping."@,
            ),
            (
                Phase::Reading,
                Input::Screen(Some(Seen::Limited(kind, message, _))),
                Order::Countdown(secs, _),
            ) => Some(
                wait_text(kind, message, secs, (before.retries + 1) as nat, self.max_retries),
            ),
            (Phase::Reading, _, Order::Pause) => if !before.waiting && status is Some {
                Some(
                    capitalized(self.program) + " recovered. Resetting backoff (was at attempt "@
                        + decimal(before.retries as nat) + ")."@,
                )
            } else {
                None
            },
            (Phase::Rechecking, _, Order::CheckProcess) => Some(
                "Rate limit gone after wait — "@ + self.program
                    + " recovered on its own, skipping retry."@,
            ),
            (Phase::Focusing, Input::Foreground(name), Order::Pause) => Some(
                "Foreground is '"@ + match name {
                    Some(got) => got,
                    None => "<unknown>"@,
                } + "', not "@ + self.program
                    + " — skipping retry. Will re-check on next poll."@,
            ),
            (Phase::Sending, _, _) => Some(
                "Sent '"@ + self.retry_message + "' to pane "@ + self.pane + "."@,
            ),
            _ => None,
        }
    }
}

fn wait_line(sighting: &Sighting, secs: u64, attempt: u32, max: u32) -> (r: Option<String>)
    ensures
        r.deep_view() == match sighting@ {
            Seen::Limited(kind, message, _) => Some(
                wait_text(kind, message, secs as nat, attempt as nat, max as nat),
            ),
            Seen::Clear => None,
        },
{
    match sighting {
        Sighting::Clear => None,
        Sighting::Limited { detection, .. } => {
            let start = match detection.kind {
                RateLimitKind::ServerThrottle => "Server throttle. Backoff ".to_owned(),
                RateLimitKind::AccountLimit => {
                    let message: &str = match &detection.message {
                        Some(text) => text.as_str(),
                        None => "unknown reset time",
                    };
                    "Account limit: ".to_owned().concat(message).concat(". Waiting ")
                },
            };
            Some(
                start.concat(decimal_string(secs).as_str()).concat("s (attempt ").concat(
                    attempt_string(attempt, max).as_str(),
                ).concat(")."),
            )
        },
    }
}

/// Writes the line of the log on a step, if there is one, of the state before it, the outcome that
/// it took and what it gave.
pub fn step_line(
    config: &Config,
    program: &str,
    pane: &str,
    before: &Monitor,
    event: &Event,
    reaction: &Reaction,
) -> (r: Option<String>)
    requires
        before.countable(),
    ensures
        r.deep_view() == subject(*config, program@, pane@).line(
            *before,
            event@,
            reaction@.0,
            reaction@.1,
        ),
{
    match before.phase {
        Phase::Polling => match reaction.command {
            Command::Stop(_) => Some(
                capitalize(program).concat(" process exited. Monitor stopping."),
            ),
            _ => None,
        },
        Phase::Reading => match (event, &reaction.command) {
            (_, Command::Stop(StopReason::PaneGone)) => Some(
                "Pane gone. Monitor exiting.".to_owned(),
            ),
            (_, Command::Stop(StopReason::RetriesExhausted)) => Some(
                "Max consecutive retries (".to_owned().concat(
                    decimal_string(config.max_retries as u64).as_str(),
                ).concat(") reached. Monitor stopping."),
            ),
            (Event::Screen(Some(sighting)), Command::Countdown { secs, .. }) => wait_line(
                sighting,
                *secs,
                before.retries + 1,
                config.max_retries,
            ),
            (_, Command::Pause) => {
                if !before.waiting && reaction.status.is_some() {
                    Some(
                        capitalize(program).concat(
                            " recovered. Resetting backoff (was at attempt ",
                        ).concat(decimal_string(before.retries as u64).as_str()).concat(")."),
                    )
                } else {
                    None
                }
            },
            _ => None,
        },
        Phase::Rechecking => match reaction.command {
            Command::CheckProcess => Some(
                "Rate limit gone after wait — ".to_owned().concat(program).concat(
                    " recovered on its own, skipping retry.",
                ),
            ),
            _ => None,
        },
        Phase::Focusing => match (event, &reaction.command) {
            (Event::Foreground(name), Command::Pause) => {
                let got: &str = match name {
                    Some(got) => got.as_str(),
                    None => "<unknown>",
                };
                Some(
                    "Foreground is '".to_owned().concat(got).concat("', not ").concat(
                        program,
                    ).concat(" — skipping retry. Will re-check on next poll."),
                )
            },
            _ => None,
        },
        Phase::Sending => Some(
            "Sent '".to_owned().concat(config.retry_message.as_str()).concat(
                "' to pane ",
            ).concat(pane).concat("."),
        ),
        _ => None,
    }
}

/// What the log tells of the steps of a monitor: the end of the process while it is polled, each
/// wait with its kind and its attempt, a recovery, a retry that is skipped, and a retry that was
/// sent.
pub proof fn steps_are_logged(
    subject: Subject,
    setup: Setup,
    before: Monitor,
    input: Input,
)
    requires
        before.wf(setup.max_retries),
        before.countable(),
        before.expects(input),
        setup.program == subject.program,
        setup.max_retries == subject.max_retries,
    ensures
        ({
            let (_, status, order) = before.after(setup, input);
            let line = subject.line(before, input, status, order);
            let count = decimal((before.retries + 1) as nat) + "/"@ + decimal(setup.max_retries);
            &&& before.phase == Phase::Polling && input == Input::Process(false) ==> line == Some(
                capitalized(subject.program) + " process exited. Monitor stopping."@,
            )
            &&& before.phase == Phase::Confirming ==> line is None
            &&& input == Input::Process(true) ==> line is None
            &&& before.phase == Phase::Reading && input == Input::Screen(None) ==> line == if before.errors
                == 9 {
                Some("Pane gone. Monitor exiting."@)
            } else {
                None
            }
            &&& before.phase == Phase::Reading && before.waiting && input != Input::Screen(None)
                ==> line is None
            &&& before.phase == Phase::Reading && !before.waiting ==> match input {
                Input::Screen(Some(Seen::Clear)) => line == if before.clean_polls >= 5
                    && before.retries > 0 {
                    Some(
                        capitalized(subject.program)
                            + " recovered. Resetting backoff (was at attempt "@ + decimal(
                            before.retries as nat,
                        ) + ")."@,
                    )
                } else {
                    None
                },
                Input::Screen(Some(Seen::Limited(kind, message, wait))) => if before.retries + 1
                    > setup.max_retries {
                    line == Some(
                        "Max consecutive retries ("@ + decimal(setup.max_retries)
                            + ") reached. Monitor stopping."@,
                    )
                } else if kind == RateLimitKind::ServerThrottle {
                    line == Some(
                        "Server throttle. Backoff "@ + decimal(
                            backoff(
                                setup.throttle_base,
                                setup.throttle_max,
                                (before.retries + 1) as nat,
                            ),
                        ) + "s (attempt "@ + count + ")."@,
                    )
                } else {
                    line == match wait {
                        Some(secs) => Some(
                            "Account limit: "@ + match message {
                                Some(text) => text,
                                None => "unknown reset time"@,
                            } + ". Waiting "@ + decimal(secs as nat) + "s (attempt "@ + count
                                + ")."@,
                        ),
                        None => None,
                    }
                },
                _ => true,
            }
            &&& before.phase == Phase::Rechecking ==> line == if input == Input::Screen(
                Some(Seen::Clear),
            ) {
                Some(
                    "Rate limit gone after wait — "@ + subject.program
                        + " recovered on its own, skipping retry."@,
                )
            } else {
                None
            }
            &&& before.phase == Phase::Focusing ==> line == if order is SendRetry {
                None
            } else {
                Some(
                    "Foreground is '"@ + match input->Foreground_0 {
                        Some(got) => got,
                        None => "<unknown>"@,
                    } + "', not "@ + subject.program
                        + " — skipping retry. Will re-check on next poll."@,
                )
            }
            &&& before.phase == Phase::Sending ==> line == Some(
                "Sent '"@ + subject.retry_message + "' to pane "@ + subject.pane + "."@,
            )
            &&& before.phase == Phase::Pausing || before.phase == Phase::Counting ==> line is None
        }),
{
}

/// The settings, the program and the pane are taken over as they are.
pub proof fn subjects_are_taken_over(config: Config, program: Seq<char>, pane: Seq<char>)
    ensures
        subject(config, program, pane).program == program,
        subject(config, program, pane).pane == pane,
        subject(config, program, pane).max_retries == config.max_retries,
        subject(config, program, pane).retry_message == config.retry_message@,
{
}

/// The log of a monitor begins with its pane and its process.
pub proof fn start_names_pane_and_process(pane: Seq<char>, pid: nat)
    ensures
        start_text(pane, pid) == "Monitor started (pane="@ + pane + ", pid="@ + decimal(pid) + ")"@,
{
}

} // verus!

//! Watching the pane of an interactive session: when to wait, when to retry, when to stop.
//!
//! The monitor decides and leaves the acting to its caller: each step takes the outcome of the
//! last command and gives the next one.

use vstd::prelude::*;

use crate::config::{backoff, Config};
use crate::numeral::{decimal, decimal_string};
use crate::patterns::{detect_rate_limit, detection, RateLimitDetection, RateLimitKind};
use crate::regexp::Pattern;
use crate::time::{
    checked_wait_seconds, relative_seconds, reset_clock, wait_outcome, wait_overflows,
};
use crate::tmux::{is_watched, looks_like_claude};

verus! {

/// After a retry, how many polls to allow for the rate limit to leave the screen: an old message
/// may stay visible.
pub const MAX_WAIT_POLLS: u32 = 60;

/// How many polls without a rate limit in a row mean that the program has recovered.
pub const CLEAN_POLLS_TO_RESET: u32 = 6;

/// How many failures in a row to read the pane mean that it is gone.
pub const MAX_ERRORS: u32 = 10;

/// What is seen on a screen.
#[derive(Debug)]
pub enum Sighting {
    /// No rate limit.
    Clear,
    /// A rate limit. For an account limit the wait until it resets, unless it is too long for 64
    /// bits; for a server throttle no wait.
    Limited { detection: RateLimitDetection, wait: Option<u64> },
}

/// What is seen on a screen, by what it says: the kind of a rate limit, its message, and the wait.
pub enum Seen {
    Clear,
    Limited(RateLimitKind, Option<Seq<char>>, Option<u64>),
}

impl View for Sighting {
    type V = Seen;

    open spec fn view(&self) -> Seen {
        match self {
            Sighting::Clear => Seen::Clear,
            Sighting::Limited { detection, wait } => Seen::Limited(
                detection@.0,
                detection@.1,
                *wait,
            ),
        }
    }
}

/// Whether a sighting tells of a text whether it shows a rate limit, of which kind, with which
/// message, and how long an account limit lasts.
pub open spec fn sees(
    sighting: Sighting,
    text: Seq<char>,
    custom: Seq<Seq<char>>,
    margin: nat,
    fallback: nat,
) -> bool {
    match (sighting, detection(text, custom)) {
        (Sighting::Clear, None) => true,
        (Sighting::Limited { detection, wait }, Some(found)) => {
            &&& detection@ == found
            &&& match detection.kind {
                RateLimitKind::ServerThrottle => wait is None,
                RateLimitKind::AccountLimit => match wait {
                    Some(secs) => wait_outcome(text, margin, fallback, secs),
                    None => wait_overflows(text, margin),
                },
            }
        },
        _ => false,
    }
}

/// Looks for a rate limit in a text, and for when it resets.
pub fn look(text: &str, custom: &[Pattern], config: &Config) -> (r: Sighting)
    ensures
        sees(
            r,
            text@,
            custom.deep_view(),
            config.margin_secs as nat,
            config.fallback_wait_secs as nat,
        ),
{
    match detect_rate_limit(text, custom) {
        None => Sighting::Clear,
        Some(detection) => {
            let wait = match detection.kind {
                RateLimitKind::ServerThrottle => None,
                RateLimitKind::AccountLimit => checked_wait_seconds(
                    text,
                    config.margin_secs,
                    config.fallback_wait_secs,
                ),
            };
            Sighting::Limited { detection, wait }
        },
    }
}

/// Looks at a screen that was read once more. One that could not be read counts as empty.
pub fn look_again(text: &Option<String>, custom: &[Pattern], config: &Config) -> (r: Sighting)
    ensures
        sees(
            r,
            match text {
                Some(shown) => shown@,
                None => ""@,
            },
            custom.deep_view(),
            config.margin_secs as nat,
            config.fallback_wait_secs as nat,
        ),
{
    match text {
        Some(shown) => look(shown.as_str(), custom, config),
        None => look("", custom, config),
    }
}

/// What the monitor waits for.
#[derive(Debug, Clone, Copy, PartialEq, Eq, Structural)]
pub enum Phase {
    /// Whether the process is alive, before a poll.
    Polling,
    /// What the screen shows.
    Reading,
    /// The end of a poll interval.
    Pausing,
    /// The end of the wait for a rate limit.
    Counting,
    /// Whether the process is alive, after the wait.
    Confirming,
    /// What the screen shows after the wait.
    Rechecking,
    /// Which command runs in the foreground.
    Focusing,
    /// The end of sending the retry message.
    Sending,
    /// Nothing more.
    Stopped,
}

/// Why the monitor stops.
#[derive(Debug, Clone, Copy, PartialEq, Eq, Structural)]
pub enum StopReason {
    /// The process has exited.
    ProcessExited,
    /// The pane cannot be read any more.
    PaneGone,
    /// The maximum of consecutive retries is exceeded.
    RetriesExhausted,
    /// The wait until the limit resets does not fit in 64 bits.
    WaitTooLong,
}

/// The outcome of a command.
#[derive(Debug)]
pub enum Event {
    /// Whether the process is alive.
    Process(bool),
    /// What was seen on the screen, if it could be read.
    Screen(Option<Sighting>),
    /// The name of the command in the foreground, if it could be read.
    Foreground(Option<String>),
    /// The command was carried out.
    Done,
}

/// The outcome of a command, by what it says.
pub enum Input {
    Process(bool),
    Screen(Option<Seen>),
    Foreground(Option<Seq<char>>),
    Done,
}

impl View for Event {
    type V = Input;

    open spec fn view(&self) -> Input {
        match self {
            Event::Process(alive) => Input::Process(*alive),
            Event::Screen(Some(sighting)) => Input::Screen(Some(sighting@)),
            Event::Screen(None) => Input::Screen(None),
            Event::Foreground(name) => Input::Foreground(name.deep_view()),
            Event::Done => Input::Done,
        }
    }
}

/// A command of the monitor.
#[derive(Debug)]
pub enum Command {
    /// Find out whether the process is alive.
    CheckProcess,
    /// Read the screen.
    CaptureScreen,
    /// Read the screen once more; one that cannot be read counts as empty.
    RecaptureScreen,
    /// Sleep for a poll interval.
    Pause,
    /// Sleep for a time, and show the label with the time that is left.
    Countdown { secs: u64, label: String },
    /// Find out which command runs in the foreground.
    ReadForeground,
    /// Send the retry message.
    SendRetry,
    /// End the monitor.
    Stop(StopReason),
}

/// A command of the monitor, by what it says.
pub enum Order {
    CheckProcess,
    CaptureScreen,
    RecaptureScreen,
    Pause,
    Countdown(nat, Seq<char>),
    ReadForeground,
    SendRetry,
    Stop(StopReason),
}

impl View for Command {
    type V = Order;

    open spec fn view(&self) -> Order {
        match self {
            Command::CheckProcess => Order::CheckProcess,
            Command::CaptureScreen => Order::CaptureScreen,
            Command::RecaptureScreen => Order::RecaptureScreen,
            Command::Pause => Order::Pause,
            Command::Countdown { secs, label } => Order::Countdown(*secs as nat, label@),
            Command::ReadForeground => Order::ReadForeground,
            Command::SendRetry => Order::SendRetry,
            Command::Stop(reason) => Order::Stop(*reason),
        }
    }
}

/// What the monitor does in a step: the new text for the status bar, if it changes, and then a
/// command.
#[derive(Debug)]
pub struct Reaction {
    pub status: Option<String>,
    pub command: Command,
}

impl View for Reaction {
    type V = (Option<Seq<char>>, Order);

    open spec fn view(&self) -> (Option<Seq<char>>, Order) {
        (self.status.deep_view(), self.command@)
    }
}

/// The state of the monitor.
#[derive(Debug, Clone, Copy, PartialEq, Eq, Structural)]
pub struct Monitor {
    pub phase: Phase,
    /// The retries since the program was last seen to have recovered.
    pub retries: u32,
    /// The failures in a row to read the pane.
    pub errors: u32,
    /// The polls in a row that saw no rate limit.
    pub clean_polls: u32,
    /// Whether a retry was sent and the rate limit may still be on the screen.
    pub waiting: bool,
    /// The polls since the retry was sent.
    pub wait_polls: u32,
}

/// The number of an attempt among the attempts that are made at most.
pub open spec fn attempt_text(attempt: nat, max: nat) -> Seq<char> {
    decimal(attempt) + "/"@ + decimal(max)
}

/// Writes the number of an attempt among the attempts that are made at most.
pub fn attempt_string(attempt: u32, max: u32) -> (r: String)
    ensures
        r@ == attempt_text(attempt as nat, max as nat),
{
    decimal_string(attempt as u64).concat("/").concat(decimal_string(max as u64).as_str())
}

/// The label of the wait after a server throttle.
pub open spec fn throttle_label(attempt: nat, max: nat) -> Seq<char> {
    "sigue: throttle retry "@ + attempt_text(attempt, max) + " in"@
}

/// The label of the wait after an account limit.
pub open spec fn limit_label(attempt: nat, max: nat) -> Seq<char> {
    "sigue: limit retry "@ + attempt_text(attempt, max) + " in"@
}

/// The status while a retry is sent.
pub open spec fn retrying_status(attempt: nat, max: nat) -> Seq<char> {
    "sigue: retrying "@ + attempt_text(attempt, max) + "..."@
}

/// The status while another command is in the foreground.
pub open spec fn paused_status(foreground: Option<Seq<char>>) -> Seq<char> {
    "sigue: paused (fg="@ + match foreground {
        Some(name) => name,
        None => "<unknown>"@,
    } + ")"@
}

/// What the steps of a monitor depend on besides its state and the outcomes: the settings, and
/// the program that is watched.
pub struct Setup {
    pub max_retries: nat,
    pub throttle_base: nat,
    pub throttle_max: nat,
    pub program: Seq<char>,
}

/// What the settings and the program that is watched make of a monitor.
pub open spec fn setup(config: Config, program: Seq<char>) -> Setup {
    Setup {
        max_retries: config.max_retries as nat,
        throttle_base: config.throttle_base_secs as nat,
        throttle_max: config.throttle_max_secs as nat,
        program,
    }
}

impl Monitor {
    /// Which outcomes answer the last command.
    pub open spec fn expects(self, input: Input) -> bool {
        match (self.phase, input) {
            (Phase::Polling, Input::Process(_)) => true,
            (Phase::Reading, Input::Screen(_)) => true,
            (Phase::Pausing, Input::Done) => true,
            (Phase::Counting, Input::Done) => true,
            (Phase::Confirming, Input::Process(_)) => true,
            (Phase::Rechecking, Input::Screen(Some(_))) => true,
            (Phase::Focusing, Input::Foreground(_)) => true,
            (Phase::Sending, Input::Done) => true,
            _ => false,
        }
    }

    /// The counters stay within their bounds: no more than the maximum of retries is made, a pane
    /// that cannot be read and a message that does not leave the screen are given up in time, and
    /// a retry in progress is counted.
    pub open spec fn wf(self, max_retries: nat) -> bool {
        &&& self.errors <= MAX_ERRORS
        &&& self.wait_polls < MAX_WAIT_POLLS
        &&& !self.waiting ==> self.wait_polls == 0
        &&& self.phase != Phase::Stopped ==> self.retries <= max_retries && self.errors
            < MAX_ERRORS
        &&& self.retrying() ==> self.retries > 0 && self.clean_polls == 0 && !self.waiting
        &&& self.phase == Phase::Sending ==> self.retries > 0 && self.clean_polls == 0
            && self.waiting
    }

    /// Whether a rate limit is being waited for or a retry is being prepared.
    pub open spec fn retrying(self) -> bool {
        ||| self.phase == Phase::Counting
        ||| self.phase == Phase::Confirming
        ||| self.phase == Phase::Rechecking
        ||| self.phase == Phase::Focusing
    }

    /// Whether the counters have room for one more.
    pub open spec fn countable(self) -> bool {
        self.retries < u32::MAX && self.clean_polls < u32::MAX
    }

    /// The state in which the monitor begins.
    pub open spec fn initial() -> Monitor {
        Monitor {
            phase: Phase::Polling,
            retries: 0,
            errors: 0,
            clean_polls: 0,
            waiting: false,
            wait_polls: 0,
        }
    }

    /// The step after the pane could not be read.
    pub open spec fn unreadable(self) -> (Monitor, Option<Seq<char>>, Order) {
        let next = Monitor { errors: (self.errors + 1) as u32, ..self };
        if next.errors >= MAX_ERRORS {
            (Monitor { phase: Phase::Stopped, ..next }, None, Order::Stop(StopReason::PaneGone))
        } else {
            (Monitor { phase: Phase::Pausing, ..next }, None, Order::Pause)
        }
    }

    /// The step after the screen was read while the last retry may still be taking effect: stop
    /// waiting for it when the rate limit is gone, or when the message stays for too long.
    pub open spec fn settling(self, seen: Seen) -> (Monitor, Option<Seq<char>>, Order) {
        let next = Monitor { errors: 0, phase: Phase::Pausing, ..self };
        if seen is Clear || self.wait_polls + 1 >= MAX_WAIT_POLLS {
            (Monitor { waiting: false, wait_polls: 0, ..next }, Some(""@), Order::Pause)
        } else {
            (
                Monitor { wait_polls: (self.wait_polls + 1) as u32, ..next },
                None,
                Order::Pause,
            )
        }
    }

    /// The step after a screen without a rate limit: enough of them in a row mean that the
    /// program has recovered.
    pub open spec fn clear(self) -> (Monitor, Option<Seq<char>>, Order) {
        let next = Monitor {
            errors: 0,
            phase: Phase::Pausing,
            clean_polls: (self.clean_polls + 1) as u32,
            ..self
        };
        if next.clean_polls >= CLEAN_POLLS_TO_RESET && self.retries > 0 {
            (Monitor { retries: 0, ..next }, Some(""@), Order::Pause)
        } else {
            (next, None, Order::Pause)
        }
    }

    /// The step after a screen with a rate limit: wait, unless there were too many retries.
    pub open spec fn limited(self, setup: Setup, seen: Seen) -> (
        Monitor,
        Option<Seq<char>>,
        Order,
    ) {
        let max_retries = setup.max_retries;
        let attempt = (self.retries + 1) as nat;
        let next = Monitor { errors: 0, clean_polls: 0, retries: attempt as u32, ..self };
        let stopped = Monitor { phase: Phase::Stopped, ..next };
        let counting = Monitor { phase: Phase::Counting, ..next };
        if attempt > max_retries {
            (
                stopped,
                Some("sigue: max retries reached"@),
                Order::Stop(StopReason::RetriesExhausted),
            )
        } else {
            match seen {
                Seen::Limited(RateLimitKind::AccountLimit, _, Some(secs)) => (
                    counting,
                    None,
                    Order::Countdown(secs as nat, limit_label(attempt, max_retries)),
                ),
                Seen::Limited(RateLimitKind::AccountLimit, _, None) => (
                    stopped,
                    None,
                    Order::Stop(StopReason::WaitTooLong),
                ),
                _ => (
                    counting,
                    None,
                    Order::Countdown(
                        backoff(setup.throttle_base, setup.throttle_max, attempt),
                        throttle_label(attempt, max_retries),
                    ),
                ),
            }
        }
    }

    /// The step after the command in the foreground was read: send the retry message only to the
    /// program that is watched.
    pub open spec fn focused(self, setup: Setup, foreground: Option<Seq<char>>) -> (
        Monitor,
        Option<Seq<char>>,
        Order,
    ) {
        if is_watched(foreground, setup.program) {
            (
                Monitor { phase: Phase::Sending, waiting: true, wait_polls: 0, ..self },
                Some(retrying_status(self.retries as nat, setup.max_retries)),
                Order::SendRetry,
            )
        } else {
            (
                Monitor { phase: Phase::Pausing, ..self },
                Some(paused_status(foreground)),
                Order::Pause,
            )
        }
    }

    /// The state after an outcome, the new text for the status bar, and the next command.
    pub open spec fn after(self, setup: Setup, input: Input) -> (
        Monitor,
        Option<Seq<char>>,
        Order,
    ) {
        match (self.phase, input) {
            (Phase::Polling, Input::Process(true)) => (
                Monitor { phase: Phase::Reading, ..self },
                None,
                Order::CaptureScreen,
            ),
            (Phase::Confirming, Input::Process(true)) => (
                Monitor { phase: Phase::Rechecking, ..self },
                None,
                Order::RecaptureScreen,
            ),
            (_, Input::Process(_)) => (
                Monitor { phase: Phase::Stopped, ..self },
                None,
                Order::Stop(StopReason::ProcessExited),
            ),
            (Phase::Reading, Input::Screen(None)) => self.unreadable(),
            (Phase::Reading, Input::Screen(Some(seen))) => if self.waiting {
                self.settling(seen)
            } else if seen is Clear {
                self.clear()
            } else {
                self.limited(setup, seen)
            },
            (Phase::Rechecking, Input::Screen(Some(Seen::Clear))) => (
                Monitor { phase: Phase::Polling, retries: 0, ..self },
                Some(""@),
                Order::CheckProcess,
            ),
            (Phase::Rechecking, _) => (
                Monitor { phase: Phase::Focusing, ..self },
                None,
                Order::ReadForeground,
            ),
            (Phase::Focusing, Input::Foreground(name)) => self.focused(setup, name),
            (Phase::Counting, _) => (
                Monitor { phase: Phase::Confirming, ..self },
                None,
                Order::CheckProcess,
            ),
            _ => (Monitor { phase: Phase::Polling, ..self }, None, Order::CheckProcess),
        }
    }
}

impl Monitor {
    /// Begins to watch: first of all, find out whether the process is alive.
    pub fn new() -> (r: Monitor)
        ensures
            r == Monitor::initial(),
            forall|max_retries: nat| #[trigger] r.wf(max_retries),
            r.countable(),
    {
        Monitor {
            phase: Phase::Polling,
            retries: 0,
            errors: 0,
            clean_polls: 0,
            waiting: false,
            wait_polls: 0,
        }
    }

    /// Tells whether an outcome answers the last command.
    pub fn is_expecting(&self, event: &Event) -> (r: bool)
        ensures
            r == self.expects(event@),
    {
        match (self.phase, event) {
            (Phase::Polling, Event::Process(_)) => true,
            (Phase::Reading, Event::Screen(_)) => true,
            (Phase::Pausing, Event::Done) => true,
            (Phase::Counting, Event::Done) => true,
            (Phase::Confirming, Event::Process(_)) => true,
            (Phase::Rechecking, Event::Screen(Some(_))) => true,
            (Phase::Focusing, Event::Foreground(_)) => true,
            (Phase::Sending, Event::Done) => true,
            _ => false,
        }
    }

    /// Tells whether the counters have room for one more.
    pub fn can_count(&self) -> (r: bool)
        ensures
            r == self.countable(),
    {
        self.retries < u32::MAX && self.clean_polls < u32::MAX
    }

    /// Takes in what was seen of the screen, if it could be read.
    fn read(&mut self, config: &Config, screen: &Option<Sighting>) -> (r: Reaction)
        requires
            old(self).wf(config.max_retries as nat),
            old(self).countable(),
            old(self).phase == Phase::Reading,
        ensures
            (*final(self), r@.0, r@.1) == old(self).after(
                setup(*config, ""@),
                Event::Screen(*screen)@,
            ),
    {
        match screen {
            None => {
                self.errors = self.errors + 1;
                if self.errors >= MAX_ERRORS {
                    self.phase = Phase::Stopped;
                    Reaction { status: None, command: Command::Stop(StopReason::PaneGone) }
                } else {
                    self.phase = Phase::Pausing;
                    Reaction { status: None, command: Command::Pause }
                }
            },
            Some(sighting) => {
                self.errors = 0;
                if self.waiting {
                    self.settle(sighting)
                } else {
                    self.judge(config, sighting)
                }
            },
        }
    }

    /// Takes in what was seen while the last retry may still be taking effect.
    fn settle(&mut self, sighting: &Sighting) -> (r: Reaction)
        requires
            old(self).wait_polls < MAX_WAIT_POLLS,
            old(self).errors == 0,
        ensures
            (*final(self), r@.0, r@.1) == old(self).settling(sighting@),
    {
        self.phase = Phase::Pausing;
        self.wait_polls = self.wait_polls + 1;
        let gone = match sighting {
            Sighting::Clear => true,
            Sighting::Limited { .. } => false,
        };
        if gone || self.wait_polls >= MAX_WAIT_POLLS {
            self.waiting = false;
            self.wait_polls = 0;
            Reaction { status: Some("".to_owned()), command: Command::Pause }
        } else {
            Reaction { status: None, command: Command::Pause }
        }
    }

    /// Takes in what was seen while no retry is taking effect.
    fn judge(&mut self, config: &Config, sighting: &Sighting) -> (r: Reaction)
        requires
            old(self).countable(),
            old(self).errors == 0,
        ensures
            (*final(self), r@.0, r@.1) == if sighting@ is Clear {
                old(self).clear()
            } else {
                old(self).limited(setup(*config, ""@), sighting@)
            },
    {
        match sighting {
            Sighting::Clear => {
                self.phase = Phase::Pausing;
                self.clean_polls = self.clean_polls + 1;
                if self.clean_polls >= CLEAN_POLLS_TO_RESET && self.retries > 0 {
                    self.retries = 0;
                    Reaction { status: Some("".to_owned()), command: Command::Pause }
                } else {
                    Reaction { status: None, command: Command::Pause }
                }
            },
            Sighting::Limited { detection, wait } => {
                self.clean_polls = 0;
                self.retries = self.retries + 1;
                if self.retries > config.max_retries {
                    self.phase = Phase::Stopped;
                    return Reaction {
                        status: Some("sigue: max retries reached".to_owned()),
                        command: Command::Stop(StopReason::RetriesExhausted),
                    };
                }
                let attempt = attempt_string(self.retries, config.max_retries);
                let (secs, start): (Option<u64>, &str) = match detection.kind {
                    RateLimitKind::ServerThrottle => (
                        Some(config.throttle_backoff(self.retries)),
                        "sigue: throttle retry ",
                    ),
                    RateLimitKind::AccountLimit => (*wait, "sigue: limit retry "),
                };
                match secs {
                    Some(secs) => {
                        self.phase = Phase::Counting;
                        let label = start.to_owned().concat(attempt.as_str()).concat(" in");
                        Reaction { status: None, command: Command::Countdown { secs, label } }
                    },
                    None => {
                        self.phase = Phase::Stopped;
                        Reaction {
                            status: None,
                            command: Command::Stop(StopReason::WaitTooLong),
                        }
                    },
                }
            },
        }
    }

    /// Takes in which command is in the foreground.
    fn focus(&mut self, config: &Config, program: &str, foreground: &Option<String>) -> (r: Reaction)
        ensures
            (*final(self), r@.0, r@.1) == old(self).focused(
                setup(*config, program@),
                foreground.deep_view(),
            ),
    {
        if looks_like_claude(foreground, program) {
            self.phase = Phase::Sending;
            self.waiting = true;
            self.wait_polls = 0;
            let attempt = attempt_string(self.retries, config.max_retries);
            let status = "sigue: retrying ".to_owned().concat(attempt.as_str()).concat("...");
            Reaction { status: Some(status), command: Command::SendRetry }
        } else {
            self.phase = Phase::Pausing;
            let name: &str = match foreground {
                Some(name) => name.as_str(),
                None => "<unknown>",
            };
            let status = "sigue: paused (fg=".to_owned().concat(name).concat(")");
            Reaction { status: Some(status), command: Command::Pause }
        }
    }

    /// Takes the outcome of the last command and gives the next one.
    pub fn step(&mut self, config: &Config, program: &str, event: &Event) -> (r: Reaction)
        requires
            old(self).wf(config.max_retries as nat),
            old(self).countable(),
            old(self).expects(event@),
        ensures
            (*final(self), r@.0, r@.1) == old(self).after(
                setup(*config, program@),
                event@,
            ),
            final(self).wf(config.max_retries as nat),
    {
        match event {
            Event::Process(alive) => {
                if !*alive {
                    self.phase = Phase::Stopped;
                    Reaction { status: None, command: Command::Stop(StopReason::ProcessExited) }
                } else if self.phase == Phase::Polling {
                    self.phase = Phase::Reading;
                    Reaction { status: None, command: Command::CaptureScreen }
                } else {
                    self.phase = Phase::Rechecking;
                    Reaction { status: None, command: Command::RecaptureScreen }
                }
            },
            Event::Screen(screen) => {
                if self.phase == Phase::Reading {
                    return self.read(config, screen);
                }
                match screen {
                    Some(Sighting::Limited { .. }) => {
                        self.phase = Phase::Focusing;
                        Reaction { status: None, command: Command::ReadForeground }
                    },
                    _ => {
                        self.phase = Phase::Polling;
                        self.retries = 0;
                        Reaction { status: Some("".to_owned()), command: Command::CheckProcess }
                    },
                }
            },
            Event::Foreground(name) => self.focus(config, program, name),
            Event::Done => {
                if self.phase == Phase::Counting {
                    self.phase = Phase::Confirming;
                } else {
                    self.phase = Phase::Polling;
                }
                Reaction { status: None, command: Command::CheckProcess }
            },
        }
    }
}

impl Setup {
    /// The state after a row of outcomes.
    pub open spec fn state(self, inputs: Seq<Input>) -> Monitor
        decreases inputs.len(),
    {
        if inputs.len() == 0 {
            Monitor::initial()
        } else {
            self.state(inputs.drop_last()).after(self, inputs.last()).0
        }
    }

    /// The command that is given after a row of outcomes.
    pub open spec fn order(self, inputs: Seq<Input>) -> Order {
        if inputs.len() == 0 {
            Order::CheckProcess
        } else {
            self.state(inputs.drop_last()).after(self, inputs.last()).2
        }
    }

    /// Whether each outcome in a row answers the command before it.
    pub open spec fn accepts(self, inputs: Seq<Input>) -> bool
        decreases inputs.len(),
    {
        inputs.len() > 0 ==> {
            let before = self.state(inputs.drop_last());
            &&& self.accepts(inputs.drop_last())
            &&& before.expects(inputs.last())
            &&& before.countable()
        }
    }

    /// How many retry messages were sent since the program was last seen to have recovered.
    pub open spec fn sent(self, inputs: Seq<Input>) -> nat
        decreases inputs.len(),
    {
        if inputs.len() == 0 {
            0
        } else if self.state(inputs).retries == 0 {
            0
        } else if self.order(inputs) is SendRetry {
            self.sent(inputs.drop_last()) + 1
        } else {
            self.sent(inputs.drop_last())
        }
    }

    /// The state after one more poll of a living process, with the pause behind it where there
    /// is one.
    pub open spec fn poll(self, monitor: Monitor, screen: Option<Seen>) -> Monitor {
        let checked = monitor.after(self, Input::Process(true)).0;
        let read = checked.after(self, Input::Screen(screen)).0;
        if read.phase == Phase::Pausing {
            read.after(self, Input::Done).0
        } else {
            read
        }
    }

    /// The state after `n` more polls that all read the same.
    pub open spec fn polls(self, monitor: Monitor, screen: Option<Seen>, n: nat) -> Monitor
        decreases n,
    {
        if n == 0 {
            monitor
        } else {
            self.poll(self.polls(monitor, screen, (n - 1) as nat), screen)
        }
    }
}

/// Every state that is reached keeps the counters within their bounds.
pub proof fn states_are_well_formed(setup: Setup, inputs: Seq<Input>)
    requires
        setup.accepts(inputs),
    ensures
        setup.state(inputs).wf(setup.max_retries),
        setup.state(inputs).phase != Phase::Stopped ==> {
            &&& setup.state(inputs).retries <= setup.max_retries
            &&& setup.state(inputs).errors < 10
        },
        setup.state(inputs).wait_polls < 60,
        setup.state(inputs).wait_polls > 0 ==> setup.state(inputs).waiting,
    decreases inputs.len(),
{
    if inputs.len() > 0 {
        states_are_well_formed(setup, inputs.drop_last());
    }
}

/// What led to the phases between the end of a wait and the sending of a retry.
proof fn preparation(setup: Setup, inputs: Seq<Input>)
    requires
        setup.accepts(inputs),
    ensures
        ({
            let n = inputs.len() as int;
            let phase = setup.state(inputs).phase;
            &&& phase == Phase::Counting ==> n >= 1 && setup.order(inputs) is Countdown
            &&& phase == Phase::Confirming ==> n >= 2 && inputs[n - 1] is Done && setup.order(
                inputs.take(n - 1),
            ) is Countdown
            &&& phase == Phase::Rechecking ==> n >= 3 && inputs[n - 1] == Input::Process(true)
                && inputs[n - 2] is Done && setup.order(inputs.take(n - 2)) is Countdown
            &&& phase == Phase::Focusing ==> n >= 4 && limit_shown(inputs[n - 1]) && inputs[n - 2]
                == Input::Process(true) && inputs[n - 3] is Done && setup.order(
                inputs.take(n - 3),
            ) is Countdown
        }),
    decreases inputs.len(),
{
    let n = inputs.len() as int;
    if n > 0 {
        let before = inputs.drop_last();
        preparation(setup, before);
        assert(inputs.take(n - 1) =~= before);
        if n > 1 {
            assert(inputs.take(n - 2) =~= before.take(n - 2));
        }
        if n > 2 {
            assert(inputs.take(n - 3) =~= before.take(n - 3));
        }
    }
}

/// Whether an outcome is a screen that shows a rate limit.
pub open spec fn limit_shown(input: Input) -> bool {
    input matches Input::Screen(Some(seen)) && !(seen is Clear)
}

/// The retry message is sent only when a wait for the rate limit has ended, the process was then
/// still alive, the rate limit was still on the screen, and the program that is watched was in
/// the foreground.
pub proof fn retry_is_prepared(setup: Setup, inputs: Seq<Input>)
    requires
        setup.accepts(inputs),
        setup.order(inputs) is SendRetry,
    ensures
        ({
            let n = inputs.len() as int;
            &&& n >= 5
            &&& inputs[n - 1] matches Input::Foreground(Some(name)) && (name == setup.program || name
                == "node"@ || name == "sigue-"@ + setup.program)
            &&& limit_shown(inputs[n - 2])
            &&& inputs[n - 3] == Input::Process(true)
            &&& inputs[n - 4] is Done
            &&& setup.order(inputs.take(n - 4)) is Countdown
        }),
{
    let n = inputs.len() as int;
    let before = inputs.drop_last();
    preparation(setup, before);
    assert(inputs.take(n - 4) =~= before.take(n - 4));
}

/// No more retry messages are sent in a row than the settings allow, and the monitor gives up only
/// when one more attempt than that would be needed.
pub proof fn retries_are_limited(setup: Setup, inputs: Seq<Input>)
    requires
        setup.accepts(inputs),
    ensures
        setup.sent(inputs) <= setup.max_retries,
        setup.order(inputs) == Order::Stop(StopReason::RetriesExhausted) ==> setup.state(
            inputs,
        ).retries == setup.max_retries + 1,
{
    sent_are_counted(setup, inputs);
    if inputs.len() > 0 {
        states_are_well_formed(setup, inputs.drop_last());
    }
}

/// The monitor stops with the process, and no outcome is awaited any more.
pub proof fn monitor_stops_with_the_process(setup: Setup, inputs: Seq<Input>, next: Input)
    requires
        inputs.len() > 0,
        setup.accepts(inputs),
        inputs.last() == Input::Process(false),
    ensures
        setup.order(inputs) == Order::Stop(StopReason::ProcessExited),
        !setup.accepts(inputs.push(next)),
{
    assert(inputs.push(next).drop_last() =~= inputs);
}

proof fn sent_are_counted(setup: Setup, inputs: Seq<Input>)
    requires
        setup.accepts(inputs),
    ensures
        ({
            let state = setup.state(inputs);
            &&& state.wf(setup.max_retries)
            &&& setup.sent(inputs) <= setup.max_retries
            &&& setup.sent(inputs) <= state.retries
            &&& state.retrying() ==> setup.sent(inputs) < state.retries
        }),
    decreases inputs.len(),
{
    if inputs.len() > 0 {
        sent_are_counted(setup, inputs.drop_last());
    }
}

/// A monitor that polls and does not wait for a retry to take effect considers the program
/// recovered after six polls in a row without a rate limit: the backoff starts anew.
pub proof fn clear_polls_recover(setup: Setup, monitor: Monitor)
    requires
        monitor.wf(setup.max_retries),
        monitor.phase == Phase::Polling,
        !monitor.waiting,
        monitor.clean_polls + 6 < u32::MAX,
    ensures
        ({
            let later = setup.polls(monitor, Some(Seen::Clear), 6);
            &&& later.phase == Phase::Polling
            &&& later.retries == 0
        }),
        monitor.clean_polls == 0 ==> forall|n: nat|
            n < 6 ==> (#[trigger] setup.polls(
                monitor,
                Some(Seen::Clear),
                n,
            )).retries == monitor.retries,
{
    clear_polls(setup, monitor, 6);
    assert forall|n: nat| monitor.clean_polls == 0 && n < 6 implies (
    #[trigger] setup.polls(monitor, Some(Seen::Clear), n)).retries == monitor.retries by {
        clear_polls(setup, monitor, n);
    }
}

proof fn clear_polls(setup: Setup, monitor: Monitor, n: nat)
    requires
        monitor.phase == Phase::Polling,
        !monitor.waiting,
        monitor.clean_polls + n < u32::MAX,
    ensures
        ({
            let later = setup.polls(monitor, Some(Seen::Clear), n);
            &&& later.phase == Phase::Polling
            &&& !later.waiting
            &&& later.clean_polls == monitor.clean_polls + n
            &&& later.retries == 0 || later.retries == monitor.retries
            &&& n > 0 && later.clean_polls >= 6 ==> later.retries == 0
            &&& later.clean_polls < 6 ==> later.retries == monitor.retries
        }),
    decreases n,
{
    if n > 0 {
        clear_polls(setup, monitor, (n - 1) as nat);
    }
}

/// A rate limit that is gone after the wait counts as a recovery: nothing is sent, and the next
/// throttle that is seen, however many clear polls later, is the first attempt again.
pub proof fn recovery_during_the_wait_starts_fresh(
    setup: Setup,
    monitor: Monitor,
    n: nat,
    message: Option<Seq<char>>,
)
    requires
        monitor.wf(setup.max_retries),
        monitor.phase == Phase::Rechecking,
        n < u32::MAX,
        setup.max_retries >= 1,
    ensures
        ({
            let clear = Input::Screen(Some(Seen::Clear));
            let throttle = Input::Screen(
                Some(Seen::Limited(RateLimitKind::ServerThrottle, message, None)),
            );
            let (recovered, status, order) = monitor.after(setup, clear);
            let later = setup.polls(recovered, Some(Seen::Clear), n);
            let checked = later.after(setup, Input::Process(true)).0;
            &&& status == Some(""@)
            &&& order == Order::CheckProcess
            &&& checked.after(setup, throttle).2 == Order::Countdown(
                backoff(setup.throttle_base, setup.throttle_max, 1),
                throttle_label(1, setup.max_retries),
            )
        }),
{
    let recovered = monitor.after(setup, Input::Screen(Some(Seen::Clear))).0;
    clear_polls(setup, recovered, n);
}

/// A message that stays on the screen after a retry is taken for a new rate limit once sixty
/// polls have shown it, and not before.
pub proof fn stale_message_is_given_up(setup: Setup, monitor: Monitor, seen: Seen, n: nat)
    requires
        monitor.phase == Phase::Polling,
        monitor.waiting,
        monitor.wait_polls == 0,
        !(seen is Clear),
        n <= 60,
    ensures
        ({
            let later = setup.polls(monitor, Some(seen), n);
            &&& later.phase == Phase::Polling
            &&& later.waiting == (n < 60)
            &&& later.retries == monitor.retries
            &&& n < 60 ==> later.wait_polls == n
        }),
    decreases n,
{
    if n > 0 {
        stale_message_is_given_up(setup, monitor, seen, (n - 1) as nat);
    }
}

/// How many of the outcomes in a row are screens that could be read.
pub open spec fn captures(inputs: Seq<Input>) -> nat
    decreases inputs.len(),
{
    if inputs.len() == 0 {
        0
    } else if inputs.last() matches Input::Screen(Some(_)) {
        captures(inputs.drop_last()) + 1
    } else {
        captures(inputs.drop_last())
    }
}

/// Whether none of the outcomes in a row is a screen without a rate limit.
pub open spec fn never_clear(inputs: Seq<Input>) -> bool {
    !inputs.contains(Input::Screen(Some(Seen::Clear)))
}

/// After a retry message was sent, whatever the outcomes, no second one is sent before a screen
/// without a rate limit is seen or the sixtieth screen is read: until then the monitor waits for
/// the retry to take effect.
pub proof fn no_second_retry_while_waiting(setup: Setup, inputs: Seq<Input>, more: Seq<Input>)
    requires
        setup.order(inputs) is SendRetry,
        setup.accepts(inputs + more),
        never_clear(more),
        captures(more) < 60,
    ensures
        setup.state(inputs + more).waiting,
        setup.state(inputs + more).wait_polls == captures(more),
        more.len() > 0 ==> !(setup.order(inputs + more) is SendRetry),
    decreases more.len(),
{
    if more.len() == 0 {
        assert(inputs + more =~= inputs);
    } else {
        let fewer = more.drop_last();
        assert((inputs + more).drop_last() =~= inputs + fewer);
        assert((inputs + more).last() == more.last());
        assert(never_clear(fewer)) by {
            if fewer.contains(Input::Screen(Some(Seen::Clear))) {
                let i = choose|i: int|
                    0 <= i < fewer.len() && fewer[i] == Input::Screen(Some(Seen::Clear));
                assert(more[i] == Input::Screen(Some(Seen::Clear)));
            }
        }
        assert(more[more.len() - 1] == more.last());
        no_second_retry_while_waiting(setup, inputs, fewer);
        states_are_well_formed(setup, inputs + fewer);
    }
}

/// The first screen without a rate limit after a retry message, or the sixtieth screen, ends the
/// wait for the retry to take effect, and empties the status.
pub proof fn waiting_ends_with_a_clear_or_the_last_screen(
    setup: Setup,
    inputs: Seq<Input>,
    more: Seq<Input>,
    seen: Seen,
)
    requires
        setup.order(inputs) is SendRetry,
        setup.accepts((inputs + more).push(Input::Screen(Some(seen)))),
        never_clear(more),
        captures(more) < 60,
        seen is Clear || captures(more) + 1 == 60,
    ensures
        ({
            let (later, status, order) = setup.state(inputs + more).after(
                setup,
                Input::Screen(Some(seen)),
            );
            &&& later == setup.state((inputs + more).push(Input::Screen(Some(seen))))
            &&& !later.waiting
            &&& status == Some(""@)
            &&& order is Pause
        }),
{
    let all = (inputs + more).push(Input::Screen(Some(seen)));
    assert(all.drop_last() =~= inputs + more);
    no_second_retry_while_waiting(setup, inputs, more);
    states_are_well_formed(setup, inputs + more);
}

/// The monitor stops when the pane could not be read in ten polls in a row, and not before.
pub proof fn unreadable_pane_is_given_up(setup: Setup, monitor: Monitor, n: nat)
    requires
        monitor.phase == Phase::Polling,
        monitor.errors == 0,
        n <= 10,
    ensures
        ({
            let later = setup.polls(monitor, None, n);
            &&& later.phase == if n < 10 {
                Phase::Polling
            } else {
                Phase::Stopped
            }
            &&& later.errors == n
        }),
    decreases n,
{
    if n > 0 {
        unreadable_pane_is_given_up(setup, monitor, (n - 1) as nat);
    }
}

/// Whoever is in the foreground decides: the retry message is sent to the program that is watched,
/// its interpreter or its wrapper, and then the monitor waits for it to take effect. For any other
/// command, such as a shell, and where the command is not known, nothing is sent: the monitor says
/// so and looks again after a pause.
pub proof fn foreground_decides(setup: Setup, monitor: Monitor, name: Option<Seq<char>>)
    requires
        monitor.phase == Phase::Focusing,
    ensures
        ({
            let (later, status, order) = monitor.after(setup, Input::Foreground(name));
            let watched = name == Some(setup.program) || name == Some("node"@) || name == Some(
                "sigue-"@ + setup.program,
            );
            &&& watched ==> {
                &&& order == Order::SendRetry
                &&& status == Some(
                    "sigue: retrying "@ + (decimal(monitor.retries as nat) + "/"@ + decimal(
                        setup.max_retries,
                    )) + "..."@,
                )
                &&& later.waiting
                &&& later.wait_polls == 0
            }
            &&& !watched ==> {
                &&& order == Order::Pause
                &&& status == Some(
                    "sigue: paused (fg="@ + match name {
                        Some(command) => command,
                        None => "<unknown>"@,
                    } + ")"@,
                )
                &&& later.waiting == monitor.waiting
            }
            &&& later.retries == monitor.retries
        }),
{
}

/// A rate limit that is read is one more attempt, and ends the row of clear polls. It is waited for
/// as its kind asks, a throttle longer with each attempt and an account limit as told, unless the
/// attempts are used up.
pub proof fn limits_are_waited_for(
    setup: Setup,
    monitor: Monitor,
    kind: RateLimitKind,
    message: Option<Seq<char>>,
    wait: Option<u64>,
)
    requires
        monitor.phase == Phase::Reading,
        !monitor.waiting,
        monitor.countable(),
    ensures
        ({
            let seen = Input::Screen(Some(Seen::Limited(kind, message, wait)));
            let (later, status, order) = monitor.after(setup, seen);
            let attempt = (monitor.retries + 1) as nat;
            let count = decimal(attempt) + "/"@ + decimal(setup.max_retries);
            let secs = backoff(setup.throttle_base, setup.throttle_max, attempt);
            &&& later.retries == attempt
            &&& later.clean_polls == 0
            &&& later.errors == 0
            &&& attempt > setup.max_retries ==> {
                &&& order == Order::Stop(StopReason::RetriesExhausted)
                &&& status == Some("sigue: max retries reached"@)
            }
            &&& attempt <= setup.max_retries ==> {
                &&& status is None
                &&& kind == RateLimitKind::ServerThrottle ==> order == Order::Countdown(
                    secs,
                    "sigue: throttle retry "@ + count + " in"@,
                )
                &&& kind == RateLimitKind::AccountLimit ==> match wait {
                    Some(n) => order == Order::Countdown(
                        n as nat,
                        "sigue: limit retry "@ + count + " in"@,
                    ),
                    None => order == Order::Stop(StopReason::WaitTooLong),
                }
            }
        }),
{
}

/// A poll finds out whether the process is alive, reads the screen and pauses. After a wait the
/// process and the screen are looked at once more, and then the foreground. A dead process ends it
/// all.
pub proof fn commands_follow_each_other(setup: Setup, monitor: Monitor, seen: Seen)
    ensures
        monitor.phase == Phase::Polling ==> monitor.after(setup, Input::Process(true)).2
            == Order::CaptureScreen,
        monitor.phase == Phase::Pausing ==> monitor.after(setup, Input::Done).2
            == Order::CheckProcess,
        monitor.phase == Phase::Counting ==> monitor.after(setup, Input::Done).2
            == Order::CheckProcess,
        monitor.phase == Phase::Confirming ==> monitor.after(setup, Input::Process(true)).2
            == Order::RecaptureScreen,
        monitor.phase == Phase::Rechecking && seen == Seen::Clear ==> monitor.after(
            setup,
            Input::Screen(Some(seen)),
        ).2 == Order::CheckProcess,
        monitor.phase == Phase::Rechecking && seen != Seen::Clear ==> monitor.after(
            setup,
            Input::Screen(Some(seen)),
        ).2 == Order::ReadForeground,
        monitor.phase == Phase::Sending ==> monitor.after(setup, Input::Done).2
            == Order::CheckProcess,
        monitor.phase == Phase::Reading && seen == Seen::Clear ==> monitor.after(
            setup,
            Input::Screen(Some(seen)),
        ).2 == Order::Pause,
        monitor.phase == Phase::Reading && monitor.waiting ==> monitor.after(
            setup,
            Input::Screen(Some(seen)),
        ).2 == Order::Pause,
        monitor.phase == Phase::Reading ==> monitor.after(
            setup,
            Input::Screen(Some(seen)),
        ).0.errors == 0,
        monitor.phase == Phase::Polling || monitor.phase == Phase::Confirming ==> monitor.after(
            setup,
            Input::Process(false),
        ).2 == Order::Stop(StopReason::ProcessExited),
{
}

/// Whatever a command brings about, its outcome is awaited, and nothing else is; after the last
/// command nothing is.
pub proof fn outcomes_are_awaited(setup: Setup, inputs: Seq<Input>)
    requires
        setup.accepts(inputs),
    ensures
        ({
            let state = setup.state(inputs);
            forall|input: Input| #[trigger]
                state.expects(input) <==> match setup.order(inputs) {
                    Order::CheckProcess => input is Process,
                    Order::CaptureScreen => input is Screen,
                    Order::RecaptureScreen => input matches Input::Screen(Some(_)),
                    Order::ReadForeground => input is Foreground,
                    Order::Pause => input is Done,
                    Order::Countdown(_, _) => input is Done,
                    Order::SendRetry => input is Done,
                    Order::Stop(_) => false,
                }
        }),
{
    if inputs.len() > 0 {
        states_are_well_formed(setup, inputs.drop_last());
    }
}

/// What is seen on a screen is what is detected in its text. For an account limit the wait is the
/// one that the text gives with the margin, or the fallback where it gives none; for a throttle
/// there is none.
pub proof fn sightings_tell_the_text(
    sighting: Sighting,
    text: Seq<char>,
    custom: Seq<Seq<char>>,
    margin: nat,
    fallback: nat,
)
    requires
        sees(sighting, text, custom, margin, fallback),
    ensures
        sighting is Clear <==> detection(text, custom) is None,
        sighting matches Sighting::Limited { detection: found, wait } ==> {
            &&& detection(text, custom) matches Some((kind, message)) && kind == found.kind
                && message == match found.message {
                Some(line) => Some(line@),
                None => None,
            }
            &&& found.kind == RateLimitKind::ServerThrottle ==> wait is None
            &&& found.kind == RateLimitKind::AccountLimit ==> {
                &&& wait matches Some(secs) ==> wait_outcome(text, margin, fallback, secs)
                &&& wait is None ==> wait_overflows(text, margin)
                &&& relative_seconds(text) is Some && relative_seconds(text)->0 + margin
                    <= 18_446_744_073_709_551_615 ==> wait is Some && wait->0
                    == relative_seconds(text)->0 + margin
                &&& relative_seconds(text) is None && reset_clock(text) is None ==> wait is Some
                    && wait->0 == fallback
            }
        },
{
}

/// A monitor begins with no retry, no failure and no poll, and first asks for the process.
pub proof fn watching_begins_afresh(setup: Setup)
    ensures
        setup.state(Seq::empty()) == (Monitor {
            phase: Phase::Polling,
            retries: 0,
            errors: 0,
            clean_polls: 0,
            waiting: false,
            wait_polls: 0,
        }),
        setup.order(Seq::empty()) == Order::CheckProcess,
{
}

/// The settings and the program are taken over as they are.
pub proof fn settings_are_taken_over(config: Config, program: Seq<char>)
    ensures
        setup(config, program).max_retries == config.max_retries,
        setup(config, program).throttle_base == config.throttle_base_secs,
        setup(config, program).throttle_max == config.throttle_max_secs,
        setup(config, program).program == program,
{
}

/// Outcomes and commands are seen as what they hold.
pub proof fn views_show_what_they_hold(
    detection: RateLimitDetection,
    wait: Option<u64>,
    alive: bool,
    name: String,
    secs: u64,
    label: String,
    reason: StopReason,
)
    ensures
        ({
            let message = match detection.message {
                Some(line) => Some(line@),
                None => None,
            };
            let limited = Sighting::Limited { detection, wait };
            &&& Sighting::Clear@ == Seen::Clear
            &&& limited@ == Seen::Limited(detection.kind, message, wait)
            &&& Event::Screen(Some(limited))@ == Input::Screen(
                Some(Seen::Limited(detection.kind, message, wait)),
            )
        }),
        Event::Screen(Some(Sighting::Clear))@ == Input::Screen(Some(Seen::Clear)),
        Event::Screen(None)@ == Input::Screen(None),
        Event::Process(alive)@ == Input::Process(alive),
        Event::Foreground(Some(name))@ == Input::Foreground(Some(name@)),
        Event::Foreground(None)@ == Input::Foreground(None),
        Event::Done@ == Input::Done,
        Command::CheckProcess@ == Order::CheckProcess,
        Command::CaptureScreen@ == Order::CaptureScreen,
        Command::RecaptureScreen@ == Order::RecaptureScreen,
        Command::Pause@ == Order::Pause,
        (Command::Countdown { secs, label })@ == Order::Countdown(secs as nat, label@),
        Command::ReadForeground@ == Order::ReadForeground,
        Command::SendRetry@ == Order::SendRetry,
        Command::Stop(reason)@ == Order::Stop(reason),
        (Reaction { status: Some(label), command: Command::Pause })@ == (
            Some(label@),
            Order::Pause,
        ),
        (Reaction { status: None, command: Command::SendRetry })@ == (
            None::<Seq<char>>,
            Order::SendRetry,
        ),
{
}

/// A step changes what it is about and nothing else: an unreadable screen counts as a failure, a
/// clear one as a clear poll, a screen that is read while a retry takes effect as a poll of that
/// wait, and all other outcomes lead on without a count.
pub proof fn steps_change_no_more(setup: Setup, monitor: Monitor, input: Input)
    requires
        monitor.wf(setup.max_retries),
        monitor.countable(),
        monitor.expects(input),
    ensures
        ({
            let later = monitor.after(setup, input).0;
            &&& input is Process || input is Done ==> later == Monitor {
                phase: later.phase,
                ..monitor
            }
            &&& monitor.phase == Phase::Reading && input == Input::Screen(None) ==> later == Monitor {
                phase: later.phase,
                errors: (monitor.errors + 1) as u32,
                ..monitor
            }
            &&& monitor.phase == Phase::Reading && monitor.waiting && input != Input::Screen(None)
                ==> later == Monitor {
                phase: Phase::Pausing,
                errors: 0,
                waiting: input != Input::Screen(Some(Seen::Clear)) && monitor.wait_polls < 59,
                wait_polls: if input != Input::Screen(Some(Seen::Clear)) && monitor.wait_polls
                    < 59 {
                    (monitor.wait_polls + 1) as u32
                } else {
                    0
                },
                ..monitor
            }
            &&& monitor.phase == Phase::Reading && !monitor.waiting && input == Input::Screen(
                Some(Seen::Clear),
            ) ==> later == Monitor {
                phase: Phase::Pausing,
                errors: 0,
                clean_polls: (monitor.clean_polls + 1) as u32,
                retries: if monitor.clean_polls >= 5 {
                    0
                } else {
                    monitor.retries
                },
                ..monitor
            }
            &&& monitor.phase == Phase::Reading && !monitor.waiting && limit_shown(input) ==> later
                == Monitor {
                phase: later.phase,
                errors: 0,
                clean_polls: 0,
                retries: (monitor.retries + 1) as u32,
                ..monitor
            }
            &&& monitor.phase == Phase::Rechecking ==> later == Monitor {
                phase: later.phase,
                retries: if limit_shown(input) {
                    monitor.retries
                } else {
                    0
                },
                ..monitor
            }
            &&& monitor.phase == Phase::Focusing ==> later == Monitor {
                phase: later.phase,
                waiting: later.waiting,
                ..monitor
            }
        }),
{
}

} // verus!

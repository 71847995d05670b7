//! Waiting with a countdown in the status bar.

use vstd::prelude::*;

use crate::numeral::{decimal, decimal_string};

verus! {

/// A number below a hundred in two digits.
pub open spec fn two_digits(n: nat) -> Seq<char> {
    if n < 10 {
        "0"@ + decimal(n)
    } else {
        decimal(n)
    }
}

/// A duration as it is shown: hours and minutes from an hour on, minutes and seconds from a
/// minute on, and else seconds.
pub open spec fn duration_text(secs: nat) -> Seq<char> {
    if secs >= 3600 {
        decimal(secs / 3600) + "h"@ + decimal((secs % 3600) / 60) + "m"@
    } else if secs >= 60 {
        decimal(secs / 60) + "m"@ + two_digits(secs % 60) + "s"@
    } else {
        decimal(secs) + "s"@
    }
}

fn two_digit_string(n: u64) -> (r: String)
    ensures
        r@ == two_digits(n as nat),
{
    if n < 10 {
        "0".to_owned().concat(decimal_string(n).as_str())
    } else {
        decimal_string(n)
    }
}

/// Writes a duration as it is shown.
pub fn format_duration(secs: u64) -> (r: String)
    ensures
        r@ == duration_text(secs as nat),
{
    if secs >= 3600 {
        decimal_string(secs / 3600).concat("h").concat(
            decimal_string((secs % 3600) / 60).as_str(),
        ).concat("m")
    } else if secs >= 60 {
        decimal_string(secs / 60).concat("m").concat(
            two_digit_string(secs % 60).as_str(),
        ).concat("s")
    } else {
        decimal_string(secs).concat("s")
    }
}

/// What to do next in a countdown.
#[derive(Debug)]
pub enum Tick {
    /// The time is over.
    Over,
    /// Show a text, and sleep for some seconds if there is still something to wait for.
    Sleep { status: String, secs: u64 },
}

/// What to do next in a countdown, by what it says.
pub enum Beat {
    Over,
    Sleep(Seq<char>, nat),
}

impl View for Tick {
    type V = Beat;

    open spec fn view(&self) -> Beat {
        match self {
            Tick::Over => Beat::Over,
            Tick::Sleep { status, secs } => Beat::Sleep(status@, *secs as nat),
        }
    }
}

/// How long to sleep with some time left: a second, or ten while more than two minutes are left.
pub open spec fn beat(remaining: nat) -> nat {
    if remaining > 120 {
        10
    } else {
        1
    }
}

/// What to do next in a countdown over `total` seconds of which `elapsed` are over.
pub open spec fn next_beat(total: nat, elapsed: nat, label: Seq<char>) -> Beat {
    if elapsed >= total {
        Beat::Over
    } else {
        let remaining = (total - elapsed) as nat;
        Beat::Sleep(label + " "@ + duration_text(remaining), beat(remaining))
    }
}

/// Decides what to do next in a countdown over `total_secs` seconds of which `elapsed` are over.
pub fn countdown_tick(total_secs: u64, elapsed: u64, label: &str) -> (r: Tick)
    ensures
        r@ == next_beat(total_secs as nat, elapsed as nat, label@),
{
    if elapsed >= total_secs {
        return Tick::Over;
    }
    let remaining: u64 = total_secs - elapsed;
    let status = label.to_owned().concat(" ").concat(format_duration(remaining).as_str());
    let secs: u64 = if remaining > 120 {
        10
    } else {
        1
    };
    Tick::Sleep { status, secs }
}

/// The time at which a countdown ends that is at `elapsed`, where each sleep takes just the time
/// that it is meant to take.
pub open spec fn end(total: nat, elapsed: nat) -> nat
    decreases total - elapsed,
{
    if elapsed >= total {
        elapsed
    } else {
        end(total, elapsed + beat((total - elapsed) as nat))
    }
}

/// A countdown ends on time: no sleep is longer than the time that is left.
pub proof fn countdown_ends_on_time(total: nat, elapsed: nat)
    requires
        elapsed <= total,
    ensures
        end(total, elapsed) == total,
        next_beat(total, elapsed, ""@) matches Beat::Sleep(_, secs) ==> 1 <= secs <= total - elapsed,
    decreases total - elapsed,
{
    if elapsed < total {
        countdown_ends_on_time(total, elapsed + beat((total - elapsed) as nat));
    }
}

/// From an hour on the hours and the minutes are shown, from a minute on the minutes and the seconds
/// in two digits, and else the seconds.
pub proof fn durations_are_shown(hours: nat, minutes: nat, secs: nat)
    requires
        minutes < 60,
        secs < 60,
    ensures
        hours > 0 ==> duration_text(hours * 3600 + minutes * 60 + secs) == decimal(hours) + "h"@
            + decimal(minutes) + "m"@,
        minutes > 0 ==> duration_text(minutes * 60 + secs) == decimal(minutes) + "m"@ + seq![
            (48 + secs / 10) as char,
            (48 + secs % 10) as char,
        ] + "s"@,
        duration_text(secs) == decimal(secs) + "s"@,
{
    reveal_strlit("0");
    reveal_with_fuel(decimal, 2);
    let digits = seq![(48 + secs / 10) as char, (48 + secs % 10) as char];
    assert(two_digits(secs) =~= digits);
    if hours > 0 {
        let all = hours * 3600 + minutes * 60 + secs;
        assert(all / 3600 == hours && (all % 3600) / 60 == minutes);
    }
    if minutes > 0 {
        let all = minutes * 60 + secs;
        assert(all / 60 == minutes && all % 60 == secs);
    }
}

/// A countdown is over when its time is, and not before. Until then the label is shown with the
/// time that is left, anew each second, or every ten seconds while more than two minutes are left.
pub proof fn countdown_shows_what_is_left(total: nat, elapsed: nat, label: Seq<char>)
    ensures
        elapsed >= total ==> next_beat(total, elapsed, label) == Beat::Over,
        elapsed < total && total - elapsed > 120 ==> next_beat(total, elapsed, label)
            == Beat::Sleep(label + " "@ + duration_text((total - elapsed) as nat), 10),
        elapsed < total && total - elapsed <= 120 ==> next_beat(total, elapsed, label)
            == Beat::Sleep(label + " "@ + duration_text((total - elapsed) as nat), 1),
{
}

/// A tick is seen as what it holds.
pub proof fn ticks_show_what_they_hold(status: String, secs: u64)
    ensures
        Tick::Over@ == Beat::Over,
        (Tick::Sleep { status, secs })@ == Beat::Sleep(status@, secs as nat),
{
}

} // verus!

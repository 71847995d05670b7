//! How long to wait until a limit resets, read from what the screen says.

use vstd::prelude::*;
use vstd::utf8::is_ascii_chars;

use crate::calendar::{
    common_zone, instants_in_zone, is_zone, less_than_a_day, local_instants, local_now, midnight_before,
    next_reset, same_day, seconds_to, seconds_to_are_whole, seconds_until, utc_now, zone_clock, zone_instants,
    zone_known, zone_reading, Instants, Moment, DAY, EARLIEST, LATEST,
};
use crate::numeral::{numeral, numeral_up_to, parse_u32, parse_u64};
use crate::regexp::{capture, regex_group};
use crate::text::{
    ascii_lower, ascii_upper, lowercased, same, starts_with, to_lowercase, to_uppercase,
    uppercased,
};

verus! {

/// "resets at 3:30 pm (Europe/Dublin)". The groups are the hour, the minutes, am or pm, and the
/// name of a time zone in parentheses; all but the first are optional.
pub const RESET_AT: &'static str =
    r"(?i)resets?\s+(?:at\s+)?(\d{1,2})(?::(\d{2}))?\s*(am|pm)?\s*(?:\(([A-Za-z][A-Za-z0-9_/+\-]*)\))?";

/// "try again in 2 hours". The groups are the amount and the unit.
pub const RESET_IN: &'static str =
    r"(?i)(?:resets?\s+in|try again in)[:\s]\s*(\d+)\s*(hours?|minutes?|h|m)";

/// The seconds of the unit that a wait is given in, in small or in capital letters.
pub open spec fn unit_seconds(unit: Seq<char>) -> nat {
    if unit.len() > 0 && (unit[0] == 'h' || unit[0] == 'H') {
        3600
    } else {
        60
    }
}

/// The seconds that an amount of a unit makes; nothing where the amount is no number of 64 bits.
pub open spec fn amount_seconds(amount: Seq<char>, unit: Seq<char>) -> Option<nat> {
    match numeral_up_to(amount, u64::MAX as nat) {
        Some(n) => Some(n * unit_seconds(unit)),
        None => None,
    }
}

/// The wait that a text gives as a duration.
pub open spec fn relative_seconds(text: Seq<char>) -> Option<nat> {
    match (regex_group(RESET_IN@, text, 1), regex_group(RESET_IN@, text, 2)) {
        (Some(amount), Some(unit)) => amount_seconds(amount, unit),
        _ => None,
    }
}

/// Whether a wait fits in 64 bits.
pub open spec fn fits(secs: Option<nat>) -> bool {
    secs matches Some(n) ==> n <= u64::MAX
}

/// Tells whether a unit stands for hours.
fn is_hours(unit: &str) -> (r: bool)
    ensures
        unit_seconds(unit@) == if r {
            3600nat
        } else {
            60nat
        },
{
    proof {
        reveal_strlit("h");
        reveal_strlit("H");
        assert("h"@ =~= seq!['h']);
        assert("H"@ =~= seq!['H']);
        if unit@.len() > 0 {
            assert(unit@.take(1)[0] == unit@[0]);
            assert(unit@[0] == 'h' ==> unit@.take(1) =~= "h"@);
            assert(unit@[0] == 'H' ==> unit@.take(1) =~= "H"@);
        }
    }
    starts_with(unit, "h") || starts_with(unit, "H")
}

/// The seconds that an amount of a unit makes, where they fit in 64 bits.
pub fn seconds_of_amount(amount: &str, unit: &str) -> (r: Option<u64>)
    requires
        fits(amount_seconds(amount@, unit@)),
    ensures
        match (r, amount_seconds(amount@, unit@)) {
            (Some(secs), Some(n)) => secs == n,
            (None, None) => true,
            _ => false,
        },
{
    match parse_u64(amount) {
        Some(n) => {
            if is_hours(unit) {
                Some(n * 3600)
            } else {
                Some(n * 60)
            }
        },
        None => None,
    }
}

/// Reads a wait that is given as a duration.
pub fn try_parse_relative(text: &str) -> (r: Option<u64>)
    requires
        fits(relative_seconds(text@)),
    ensures
        match (r, relative_seconds(text@)) {
            (Some(secs), Some(n)) => secs == n,
            (None, None) => true,
            _ => false,
        },
{
    match (capture(RESET_IN, text, 1), capture(RESET_IN, text, 2)) {
        (Some(amount), Some(unit)) => seconds_of_amount(amount.as_str(), unit.as_str()),
        _ => None,
    }
}

/// A time zone: a named IANA zone, UTC, or the local time of this machine.
#[derive(Debug, PartialEq, Eq)]
pub enum TzSpec {
    Named(String),
    Utc,
    Local,
}

/// A time zone, by the characters of its name.
pub enum Zone {
    Named(Seq<char>),
    Utc,
    Local,
}

impl View for TzSpec {
    type V = Zone;

    open spec fn view(&self) -> Zone {
        match self {
            TzSpec::Named(name) => Zone::Named(name@),
            TzSpec::Utc => Zone::Utc,
            TzSpec::Local => Zone::Local,
        }
    }
}

/// The IANA zone of a common abbreviation.
pub open spec fn abbreviated(upper: Seq<char>) -> Option<Seq<char>> {
    if upper == "EST"@ || upper == "EDT"@ {
        Some("US/Eastern"@)
    } else if upper == "CST"@ || upper == "CDT"@ {
        Some("US/Central"@)
    } else if upper == "MST"@ || upper == "MDT"@ {
        Some("US/Mountain"@)
    } else if upper == "PST"@ || upper == "PDT"@ {
        Some("US/Pacific"@)
    } else if upper == "BST"@ {
        Some("Europe/London"@)
    } else if upper == "CET"@ || upper == "CEST"@ {
        Some("Europe/Paris"@)
    } else {
        None
    }
}

/// The time zone that a text names, given the text in lower and in upper case, and whether it is
/// the name of an IANA zone.
pub open spec fn zone_named(
    text: Seq<char>,
    lower: Seq<char>,
    upper: Seq<char>,
    known: bool,
) -> Zone {
    if lower == "utc"@ || lower == "gmt"@ || lower == "z"@ {
        Zone::Utc
    } else if lower == "local"@ {
        Zone::Local
    } else if known {
        Zone::Named(text)
    } else {
        match abbreviated(upper) {
            Some(name) => Zone::Named(name),
            None => Zone::Local,
        }
    }
}

/// Tells which time zone a text names, given the text in lower and in upper case, and whether it
/// is the name of an IANA zone.
pub fn choose_zone(text: &str, lower: &str, upper: &str, known: bool) -> (r: TzSpec)
    ensures
        r@ == zone_named(text@, lower@, upper@, known),
{
    if same(lower, "utc") || same(lower, "gmt") || same(lower, "z") {
        return TzSpec::Utc;
    }
    if same(lower, "local") {
        return TzSpec::Local;
    }
    if known {
        return TzSpec::Named(text.to_owned());
    }
    if same(upper, "EST") || same(upper, "EDT") {
        TzSpec::Named("US/Eastern".to_owned())
    } else if same(upper, "CST") || same(upper, "CDT") {
        TzSpec::Named("US/Central".to_owned())
    } else if same(upper, "MST") || same(upper, "MDT") {
        TzSpec::Named("US/Mountain".to_owned())
    } else if same(upper, "PST") || same(upper, "PDT") {
        TzSpec::Named("US/Pacific".to_owned())
    } else if same(upper, "BST") {
        TzSpec::Named("Europe/London".to_owned())
    } else if same(upper, "CET") || same(upper, "CEST") {
        TzSpec::Named("Europe/Paris".to_owned())
    } else {
        TzSpec::Local
    }
}

/// The time zone that a text names.
pub open spec fn zone_of(text: Seq<char>) -> Zone {
    zone_named(text, lowercased(text), uppercased(text), zone_known(text))
}

/// Tells which time zone a text names: UTC, local time, an IANA zone, or a common abbreviation
/// for one. Any other text stands for local time.
pub fn parse_timezone(s: &str) -> (r: TzSpec)
    ensures
        r@ == zone_of(s@),
        is_ascii_chars(s@) ==> r@ == zone_named(
            s@,
            s@.map_values(|c: char| ascii_lower(c)),
            s@.map_values(|c: char| ascii_upper(c)),
            zone_known(s@),
        ),
{
    let lower = to_lowercase(s);
    let upper = to_uppercase(s);
    choose_zone(s, lower.as_str(), upper.as_str(), is_zone(s))
}

/// The hour on a clock of twenty-four hours.
pub open spec fn hour_of_day(hour: nat, meridiem: Option<Seq<char>>) -> nat {
    if meridiem == Some("pm"@) && hour != 12 {
        hour + 12
    } else if meridiem == Some("am"@) && hour == 12 {
        0
    } else {
        hour
    }
}

/// The seconds from midnight to a time of day; nothing where there is no such time.
pub open spec fn second_of_day(hour: nat, minute: nat, meridiem: Option<Seq<char>>) -> Option<
    nat,
> {
    let h = hour_of_day(hour, meridiem);
    if h < 24 && minute < 60 {
        Some(h * 3600 + minute * 60)
    } else {
        None
    }
}

/// The seconds from midnight to a time of day, where there is such a time.
pub fn seconds_after_midnight(hour: u32, minute: u32, meridiem: Option<&str>) -> (r: Option<u32>)
    ensures
        match (r, second_of_day(hour as nat, minute as nat, meridiem.deep_view())) {
            (Some(secs), Some(n)) => secs == n && n < DAY,
            (None, None) => true,
            _ => false,
        },
{
    if hour >= 24 || minute >= 60 {
        return None;
    }
    let mut h: u32 = hour;
    if let Some(m) = meridiem {
        if same(m, "pm") && hour != 12 {
            h = hour + 12;
        } else if same(m, "am") && hour == 12 {
            proof {
                reveal_strlit("am");
                reveal_strlit("pm");
                assert("am"@[0] != "pm"@[0]);
            }
            h = 0;
        }
    }
    if h >= 24 {
        return None;
    }
    Some(h * 3600 + minute * 60)
}

/// The time of day at which a text says that the limit resets, in seconds after midnight, and
/// the time zone that it is given in.
pub open spec fn reset_clock(text: Seq<char>) -> Option<(nat, Zone)> {
    match regex_group(RESET_AT@, text, 1) {
        None => None,
        Some(hour) => clock_of_groups(
            hour,
            regex_group(RESET_AT@, text, 2),
            match regex_group(RESET_AT@, text, 3) {
                Some(m) => Some(lowercased(m)),
                None => None,
            },
            match regex_group(RESET_AT@, text, 4) {
                Some(name) => zone_of(name),
                None => Zone::Local,
            },
        ),
    }
}

/// The time of day and its zone, of the text for the hour and, where they were given, the texts
/// for the minutes and for am or pm in lower case.
pub open spec fn clock_of_groups(
    hour: Seq<char>,
    minute: Option<Seq<char>>,
    meridiem: Option<Seq<char>>,
    zone: Zone,
) -> Option<(nat, Zone)> {
    match numeral_up_to(hour, u32::MAX as nat) {
        None => None,
        Some(h) => match second_of_day(h, minutes_of(minute), meridiem) {
            None => None,
            Some(secs) => Some((secs, zone)),
        },
    }
}

/// The minutes that a text gives; none where it gives no number.
pub open spec fn minutes_of(minute: Option<Seq<char>>) -> nat {
    match minute {
        None => 0,
        Some(text) => match numeral_up_to(text, u32::MAX as nat) {
            Some(n) => n,
            None => 0,
        },
    }
}

/// Reads a time of day from the texts for its parts.
pub fn read_clock(hour: &str, minute: Option<&str>, meridiem: Option<&str>, zone: TzSpec) -> (r:
    Option<(u32, TzSpec)>)
    ensures
        match (r, clock_of_groups(hour@, minute.deep_view(), meridiem.deep_view(), zone@)) {
            (Some((secs, z)), Some((n, there))) => secs == n && n < DAY && z@ == there,
            (None, None) => true,
            _ => false,
        },
{
    let h: u32 = match parse_u32(hour) {
        Some(h) => h,
        None => {
            return None;
        },
    };
    let m: u32 = match minute {
        Some(text) => match parse_u32(text) {
            Some(n) => n,
            None => 0,
        },
        None => 0,
    };
    match seconds_after_midnight(h, m, meridiem) {
        Some(secs) => Some((secs, zone)),
        None => None,
    }
}

fn borrowed(s: &Option<String>) -> (r: Option<&str>)
    ensures
        r.deep_view() == s.deep_view(),
{
    match s {
        Some(text) => Some(text.as_str()),
        None => None,
    }
}

/// Reads the time of day at which a text says that the limit resets.
pub fn parse_clock(text: &str) -> (r: Option<(u32, TzSpec)>)
    ensures
        match (r, reset_clock(text@)) {
            (Some((secs, z)), Some((n, there))) => secs == n && n < DAY && z@ == there,
            (None, None) => true,
            _ => false,
        },
{
    match capture(RESET_AT, text, 1) {
        None => None,
        Some(hour) => {
            let minute = capture(RESET_AT, text, 2);
            let meridiem = match capture(RESET_AT, text, 3) {
                Some(m) => Some(to_lowercase(m.as_str())),
                None => None,
            };
            let zone = match capture(RESET_AT, text, 4) {
                Some(name) => parse_timezone(name.as_str()),
                None => TzSpec::Local,
            };
            read_clock(hour.as_str(), borrowed(&minute), borrowed(&meridiem), zone)
        },
    }
}

/// The instant of the next reset that is due at a time of day of UTC.
pub open spec fn utc_reset(second_of_day: nat, now: Moment) -> int {
    let today = midnight_before(now.secs as int) + second_of_day;
    next_reset(today, today + DAY, now.secs as int)
}

/// The wait for a reset that is due at a time of day of UTC.
pub open spec fn utc_wait(second_of_day: nat, now: Moment) -> int {
    seconds_to(utc_reset(second_of_day, now), now)
}

/// The instant of the next reset that is due at a time of day of a wall clock which shows `clock`
/// at `now`, of the instants at which it shows the time of day on that date and on the next
/// one. Where the clock skips the time of day, the instant is taken at which it would be shown if
/// the clock were not turned.
pub open spec fn clock_reset(
    today: Instants,
    tomorrow: Instants,
    now: Moment,
    clock: int,
    second_of_day: nat,
) -> int {
    let nearby = unturned(now, clock, second_of_day);
    next_reset(today.resolved(nearby), tomorrow.resolved(nearby + DAY), now.secs as int)
}

/// The instant at which a wall clock which shows `clock` at `now` would show a time of day on that
/// date if it were not turned.
pub open spec fn unturned(now: Moment, clock: int, second_of_day: nat) -> int {
    now.secs + (midnight_before(clock) + second_of_day - clock)
}

/// Whether the calendar leaves room around `now` for today and tomorrow in every time zone.
pub open spec fn amid_calendar(now: Moment) -> bool {
    EARLIEST + DAY <= now.secs <= LATEST - 3 * DAY
}

/// The wait for a reset that is due at a time of day of a named zone. At the ends of the calendar,
/// where the zone has no clock, that of UTC is taken.
pub open spec fn zone_wait(name: Seq<char>, second_of_day: nat, now: Moment) -> Option<int> {
    if !zone_known(name) {
        None
    } else if amid_calendar(now) {
        match zone_reading(name, now.secs as int) {
            Some(clock) => {
                let reading = midnight_before(clock) + second_of_day;
                match (zone_instants(name, reading), zone_instants(name, reading + DAY)) {
                    (Some(today), Some(tomorrow)) => Some(
                        seconds_to(
                            clock_reset(today, tomorrow, now, clock, second_of_day),
                            now,
                        ),
                    ),
                    _ => None,
                }
            },
            None => None,
        }
    } else {
        Some(utc_wait(second_of_day, now))
    }
}

/// Waits for a reset that is due at a time of day of UTC.
pub fn wait_until_utc(second_of_day: u32, now: Moment) -> (r: u64)
    requires
        second_of_day < DAY,
        now.wf(),
    ensures
        r == utc_wait(second_of_day as nat, now),
        r <= DAY,
{
    let today = same_day(now.secs, second_of_day);
    if today > now.secs {
        seconds_until(today, now)
    } else {
        seconds_until(today + DAY, now)
    }
}

/// Waits for a reset that is due at a time of day of a wall clock which shows `clock` at `now`,
/// given the instants at which it shows the time of day on that date and on the next one.
pub fn wait_until_clock(
    today: Instants,
    tomorrow: Instants,
    now: Moment,
    clock: i64,
    second_of_day: u32,
) -> (r: u64)
    requires
        second_of_day < DAY,
        EARLIEST <= clock <= LATEST,
        less_than_a_day(clock - now.secs),
        today.near(midnight_before(clock as int) + second_of_day),
        tomorrow.near(midnight_before(clock as int) + second_of_day + DAY),
        now.wf(),
    ensures
        r == seconds_to(
            clock_reset(today, tomorrow, now, clock as int, second_of_day as nat),
            now,
        ),
        r < 4 * DAY,
{
    let nearby: i64 = now.secs + (same_day(clock, second_of_day) - clock);
    let first: i64 = today.resolve(nearby);
    if first > now.secs {
        seconds_until(first, now)
    } else {
        seconds_until(tomorrow.resolve(nearby + DAY), now)
    }
}

/// Waits for a reset that is due at a time of day of a named zone. There is a wait exactly for a
/// known zone.
pub fn wait_until_zone(name: &str, second_of_day: u32, now: Moment) -> (r: Option<u64>)
    requires
        second_of_day < DAY,
        now.wf(),
    ensures
        zone_outcome_at(name@, second_of_day as nat, now, r),
        common_zone(name@) ==> r is Some,
{
    if !is_zone(name) {
        return None;
    }
    if now.secs < EARLIEST + DAY || now.secs > LATEST - 3 * DAY {
        return Some(wait_until_utc(second_of_day, now));
    }
    match zone_clock(name, now.secs) {
        Some(clock) => {
            let reading = same_day(clock, second_of_day);
            match (instants_in_zone(name, reading), instants_in_zone(name, reading + DAY)) {
                (Some(today), Some(tomorrow)) => Some(
                    wait_until_clock(today, tomorrow, now, clock, second_of_day),
                ),
                _ => None,
            }
        },
        None => None,
    }
}

/// Whether `wait` comes out at `now` of a text that gives a time of day of this machine, whose
/// wall clock then shows `clock`, and the time of day on that date and on the next one at the
/// given instants.
pub open spec fn local_outcome_at(
    second_of_day: nat,
    now: Moment,
    clock: int,
    today: Instants,
    tomorrow: Instants,
    wait: u64,
) -> bool {
    let reading = midnight_before(clock) + second_of_day;
    &&& now.wf()
    &&& EARLIEST <= clock <= LATEST
    &&& less_than_a_day(clock - now.secs)
    &&& today.near(reading)
    &&& tomorrow.near(reading + DAY)
    &&& wait == seconds_to(clock_reset(today, tomorrow, now, clock, second_of_day), now)
    &&& wait < 4 * DAY
}

/// Whether `wait` can come out of a text that gives a time of day of this machine: a wait for
/// that time, at some moment and for some time zone.
pub open spec fn local_outcome(second_of_day: nat, wait: u64) -> bool {
    exists|now: Moment, clock: int, today: Instants, tomorrow: Instants|
        local_outcome_at(second_of_day, now, clock, today, tomorrow, wait)
}

/// Whether `wait` comes out at `now` of a text that gives a time of day of a named zone. There is
/// a wait exactly for a known zone.
pub open spec fn zone_outcome_at(
    name: Seq<char>,
    second_of_day: nat,
    now: Moment,
    wait: Option<u64>,
) -> bool {
    &&& match (wait, zone_wait(name, second_of_day, now)) {
        (Some(n), Some(m)) => n == m && n < 4 * DAY,
        (None, None) => true,
        _ => false,
    }
    &&& wait is Some <==> zone_known(name)
}

/// Whether `wait` can come out of a text that gives a time of day: at some moment, the wait for
/// the next time that the clock shows it. There is a wait for every time of day.
pub open spec fn absolute_outcome(text: Seq<char>, wait: Option<u64>) -> bool {
    match reset_clock(text) {
        None => wait is None,
        Some((secs, Zone::Utc)) => exists|now: Moment|
            #[trigger] now.wf() && (wait matches Some(n) && n == utc_wait(secs, now)),
        Some((secs, Zone::Named(name))) => wait is Some && exists|now: Moment|
            #[trigger] now.wf() && zone_outcome_at(name, secs, now, wait),
        Some((secs, Zone::Local)) => wait matches Some(n) && local_outcome(secs, n),
    }
}

/// The instants at which the wall clock of this machine shows a reading; none where the reading
/// is past the calendar.
fn local_instants_of(reading: i64) -> (r: Instants)
    requires
        EARLIEST <= reading,
    ensures
        r.near(reading as int),
{
    if reading <= LATEST {
        local_instants(reading)
    } else {
        Instants::Missing
    }
}

fn wait_until_local(second_of_day: u32) -> (r: u64)
    requires
        second_of_day < DAY,
    ensures
        local_outcome(second_of_day as nat, r),
        r < 4 * DAY,
{
    let (now, clock) = local_now();
    let reading = same_day(clock, second_of_day);
    let today = local_instants_of(reading);
    let tomorrow = local_instants_of(reading + DAY);
    let wait = wait_until_clock(today, tomorrow, now, clock, second_of_day);
    assert(local_outcome_at(second_of_day as nat, now, clock as int, today, tomorrow, wait));
    wait
}

/// Reads a wait that is given by a time of day: the time until the clock of the zone shows it
/// next. A text that gives a time of day always gives a wait.
pub fn try_parse_absolute(text: &str) -> (r: Option<u64>)
    ensures
        absolute_outcome(text@, r),
        r is Some <==> reset_clock(text@) is Some,
        reset_clock(text@) matches Some((_, Zone::Named(name))) ==> zone_known(name),
        r matches Some(n) ==> n < 4 * DAY,
{
    match parse_clock(text) {
        None => None,
        Some((secs, zone)) => match zone {
            TzSpec::Utc => {
                let now = utc_now();
                Some(wait_until_utc(secs, now))
            },
            TzSpec::Named(name) => {
                let now = utc_now();
                wait_until_zone(name.as_str(), secs, now)
            },
            TzSpec::Local => Some(wait_until_local(secs)),
        },
    }
}

/// The wait of a text, of the waits that it gives as a duration and by a time of day.
pub open spec fn combined_wait(
    relative: Option<nat>,
    absolute: Option<u64>,
    margin: nat,
    fallback: nat,
) -> nat {
    match (relative, absolute) {
        (Some(secs), _) => secs + margin,
        (None, Some(secs)) => secs as nat + margin,
        (None, None) => fallback,
    }
}

/// Combines the waits that a text gives as a duration and by a time of day: the first one that
/// there is, with the margin, or the fallback.
pub fn combine_waits(
    relative: Option<u64>,
    absolute: Option<u64>,
    margin_secs: u64,
    fallback_secs: u64,
) -> (r: u64)
    requires
        relative matches Some(secs) ==> secs + margin_secs <= u64::MAX,
        relative is None ==> (absolute matches Some(secs) ==> secs + margin_secs <= u64::MAX),
    ensures
        r == combined_wait(
            match relative {
                Some(secs) => Some(secs as nat),
                None => None,
            },
            absolute,
            margin_secs as nat,
            fallback_secs as nat,
        ),
{
    match (relative, absolute) {
        (Some(secs), _) => secs + margin_secs,
        (None, Some(secs)) => secs + margin_secs,
        (None, None) => fallback_secs,
    }
}

/// Whether the wait that a text gives may not fit in 64 bits with the margin: the duration that it
/// gives does not, or a wait that can come out of the time of day that it gives does not.
pub open spec fn wait_overflows(text: Seq<char>, margin: nat) -> bool {
    match relative_seconds(text) {
        Some(secs) => secs + margin > u64::MAX,
        None => exists|absolute: u64|
            #[trigger] absolute_outcome(text, Some(absolute)) && absolute + margin > u64::MAX,
    }
}

/// Whether `wait` can come out of a text: the duration that it gives or the time until the time
/// of day that it gives, with the margin, or else the fallback.
pub open spec fn wait_outcome(text: Seq<char>, margin: nat, fallback: nat, wait: u64) -> bool {
    if relative_seconds(text) is Some {
        wait == combined_wait(relative_seconds(text), None, margin, fallback)
    } else {
        exists|absolute: Option<u64>|
            #[trigger] absolute_outcome(text, absolute) && wait == combined_wait(
                None,
                absolute,
                margin,
                fallback,
            )
    }
}

/// Reads a reset time from what the screen says, and returns the seconds to wait. Falls back to
/// `fallback_secs` if there is none to be read.
pub fn parse_wait_seconds(text: &str, margin_secs: u64, fallback_secs: u64) -> (r: u64)
    requires
        !wait_overflows(text@, margin_secs as nat),
    ensures
        wait_outcome(text@, margin_secs as nat, fallback_secs as nat, r),
{
    let relative = try_parse_relative(text);
    let absolute = if relative.is_some() {
        None
    } else {
        try_parse_absolute(text)
    };
    combine_waits(relative, absolute, margin_secs, fallback_secs)
}

/// Whether the duration that a text gives does not fit in 64 bits with the margin.
fn duration_overflows(text: &str, margin_secs: u64) -> (r: bool)
    ensures
        r == (relative_seconds(text@) matches Some(secs) && secs + margin_secs > u64::MAX),
{
    let amount: Option<u64> = match capture(RESET_IN, text, 1) {
        Some(amount) => parse_u64(amount.as_str()),
        None => None,
    };
    match (amount, capture(RESET_IN, text, 2)) {
        (Some(n), Some(unit)) => {
            if is_hours(unit.as_str()) {
                n > (u64::MAX - margin_secs) / 3600
            } else {
                n > (u64::MAX - margin_secs) / 60
            }
        },
        _ => false,
    }
}

/// Reads the seconds to wait as `parse_wait_seconds` does, and nothing where they do not fit in
/// 64 bits.
pub fn checked_wait_seconds(text: &str, margin_secs: u64, fallback_secs: u64) -> (r: Option<u64>)
    ensures
        match r {
            Some(wait) => wait_outcome(text@, margin_secs as nat, fallback_secs as nat, wait),
            None => wait_overflows(text@, margin_secs as nat),
        },
        relative_seconds(text@) matches Some(secs) ==> (r is Some <==> secs + margin_secs
            <= u64::MAX),
{
    if duration_overflows(text, margin_secs) {
        return None;
    }
    if try_parse_relative(text).is_some() {
        return Some(parse_wait_seconds(text, margin_secs, fallback_secs));
    }
    match try_parse_absolute(text) {
        Some(secs) => secs.checked_add(margin_secs),
        None => Some(fallback_secs),
    }
}

/// A text that gives a duration makes the wait that long and the margin longer, whatever else it
/// says.
pub proof fn duration_plus_margin(text: Seq<char>, margin: nat, fallback: nat, wait: u64)
    requires
        wait_outcome(text, margin, fallback, wait),
        relative_seconds(text) is Some,
    ensures
        wait == relative_seconds(text)->0 + margin,
{
}

/// A text that gives neither a duration nor a time of day makes the wait the fallback.
pub proof fn fallback_without_reset(text: Seq<char>, margin: nat, fallback: nat, wait: u64)
    requires
        wait_outcome(text, margin, fallback, wait),
        relative_seconds(text) is None,
        reset_clock(text) is None,
    ensures
        wait == fallback,
{
}

/// A text that gives a time of day of UTC makes the wait at most a day and the margin long, and
/// at least as long as the margin.
pub proof fn utc_time_within_a_day(text: Seq<char>, margin: nat, fallback: nat, wait: u64)
    requires
        wait_outcome(text, margin, fallback, wait),
        relative_seconds(text) is None,
        reset_clock(text) matches Some((_, zone)) && zone == Zone::Utc,
    ensures
        margin <= wait <= DAY + margin,
{
    let secs = (reset_clock(text)->0).0;
    let absolute = choose|absolute: Option<u64>|
        #[trigger] absolute_outcome(text, absolute) && wait == combined_wait(
            None,
            absolute,
            margin,
            fallback,
        );
    let now = choose|now: Moment|
        #[trigger] now.wf() && (absolute matches Some(n) && n == utc_wait(secs, now));
    utc_reset_is_next(secs, now);
}

/// A reset that is due at a time of day of UTC takes place the next time that the clock shows
/// it: after now, and at most a day later.
pub proof fn utc_reset_is_next(second_of_day: nat, now: Moment)
    requires
        second_of_day < DAY,
        now.wf(),
    ensures
        ({
            let target = utc_reset(second_of_day, now);
            &&& target % (DAY as int) == second_of_day
            &&& now.secs < target <= now.secs + DAY
        }),
        0 <= utc_wait(second_of_day, now) <= DAY,
{
}

/// A reset that is due at a time of day of a zone takes place when the clock of the zone next
/// shows it: today, where the first instant at which it does is still to come, and else tomorrow.
/// The wait is what the clock has yet to pass through, longer by what the clock is turned back
/// until then and shorter by what it is turned forward.
pub proof fn zone_reset_is_next(
    name: Seq<char>,
    second_of_day: nat,
    now: Moment,
    clock: int,
    today: Instants,
    tomorrow: Instants,
)
    requires
        second_of_day < 86_400,
        -8_334_601_142_400 <= now.secs <= 8_210_266_617_599,
        now.nanos < 1_000_000_000,
        zone_known(name),
        zone_reading(name, now.secs as int) == Some(clock),
        zone_instants(name, (clock - clock % 86_400) + second_of_day) == Some(today),
        zone_instants(name, (clock - clock % 86_400) + second_of_day + 86_400) == Some(tomorrow),
    ensures
        ({
            let target = clock_reset(today, tomorrow, now, clock, second_of_day);
            let nearby = unturned(now, clock, second_of_day);
            let still_to_come = today.resolved(nearby) > now.secs;
            let due = midnight_before(clock) + second_of_day + if still_to_come {
                0
            } else {
                DAY as int
            };
            let shown = if still_to_come {
                today
            } else {
                tomorrow
            };
            let turned_back = (clock - now.secs) - (due - target);
            &&& zone_wait(name, second_of_day, now) == Some(seconds_to(target, now))
            &&& due % (DAY as int) == second_of_day
            &&& zone_instants(name, due) == Some(shown)
            &&& shown matches Instants::Unique(t) ==> target == t
            &&& shown matches Instants::Ambiguous(t, _) ==> target == t
            &&& shown is Missing ==> turned_back == 0
            &&& target - now.secs == (due - clock) + turned_back
            &&& still_to_come ==> now.secs < target < now.secs + DAY + turned_back
            &&& !still_to_come ==> {
                &&& now.secs + turned_back < target
                &&& target - now.secs <= tomorrow.resolved(nearby + DAY) - today.resolved(nearby)
            }
            &&& turned_back >= 0 ==> now.secs < target
        }),
{
}

/// An hour from 1 to 11 before noon is that hour of the day, and after noon twelve hours later. The
/// twelfth hour before noon begins the day, and after noon its second half. Without am or pm the
/// hours are those of a day of twenty-four hours. There is no other time of day.
pub proof fn times_of_day(hour: nat, minute: nat)
    ensures
        minute < 60 && 1 <= hour <= 11 ==> {
            &&& second_of_day(hour, minute, Some("am"@)) == Some(hour * 3600 + minute * 60)
            &&& second_of_day(hour, minute, Some("pm"@)) == Some(hour * 3600 + minute * 60 + 43_200)
        },
        minute < 60 ==> {
            &&& second_of_day(12, minute, Some("am"@)) == Some(minute * 60)
            &&& second_of_day(12, minute, Some("pm"@)) == Some(43_200 + minute * 60)
            &&& second_of_day(0, minute, Some("am"@)) == Some(minute * 60)
            &&& second_of_day(0, minute, Some("pm"@)) == Some(43_200 + minute * 60)
        },
        minute < 60 && hour <= 23 ==> second_of_day(hour, minute, None) == Some(
            hour * 3600 + minute * 60,
        ),
        minute < 60 && 13 <= hour <= 23 ==> second_of_day(hour, minute, Some("am"@)) == Some(
            hour * 3600 + minute * 60,
        ),
        hour >= 13 ==> second_of_day(hour, minute, Some("pm"@)) is None,
        hour >= 24 ==> {
            &&& second_of_day(hour, minute, None) is None
            &&& second_of_day(hour, minute, Some("am"@)) is None
        },
        minute >= 60 ==> forall|meridiem: Option<Seq<char>>| #[trigger]
            second_of_day(hour, minute, meridiem) is None,
{
    reveal_strlit("am");
    reveal_strlit("pm");
    assert("am"@[0] != "pm"@[0]);
}

/// Every unit that a duration can be given in, in small or in capital letters, is worth an hour or
/// a minute, as its name says.
pub proof fn units_have_their_seconds(unit: Seq<char>)
    ensures
        ({
            let lower = unit.map_values(|c: char| ascii_lower(c));
            &&& lower == "h"@ || lower == "hour"@ || lower == "hours"@ ==> unit_seconds(unit) == 3600
            &&& lower == "m"@ || lower == "minute"@ || lower == "minutes"@ ==> unit_seconds(unit)
                == 60
        }),
{
    reveal_strlit("h");
    reveal_strlit("hour");
    reveal_strlit("hours");
    reveal_strlit("m");
    reveal_strlit("minute");
    reveal_strlit("minutes");
    let lower = unit.map_values(|c: char| ascii_lower(c));
    assert(lower.len() == unit.len());
    assert("h"@[0] == 'h' && "hour"@[0] == 'h' && "hours"@[0] == 'h');
    assert("m"@[0] == 'm' && "minute"@[0] == 'm' && "minutes"@[0] == 'm');
    if unit.len() > 0 {
        assert(lower[0] == ascii_lower(unit[0]));
    }
}

/// A text that gives an amount of hours or of minutes makes the wait that long and the margin
/// longer, whatever else it says.
pub proof fn stated_duration_is_waited_for(
    text: Seq<char>,
    amount: Seq<char>,
    n: nat,
    unit: Seq<char>,
    margin: nat,
    fallback: nat,
    wait: u64,
)
    requires
        wait_outcome(text, margin, fallback, wait),
        regex_group(
            r"(?i)(?:resets?\s+in|try again in)[:\s]\s*(\d+)\s*(hours?|minutes?|h|m)"@,
            text,
            1,
        ) == Some(amount),
        regex_group(
            r"(?i)(?:resets?\s+in|try again in)[:\s]\s*(\d+)\s*(hours?|minutes?|h|m)"@,
            text,
            2,
        ) == Some(unit),
        numeral(amount) == Some(n),
        n <= u64::MAX,
    ensures
        ({
            let lower = unit.map_values(|c: char| ascii_lower(c));
            &&& lower == "h"@ || lower == "hour"@ || lower == "hours"@ ==> wait == n * 3600 + margin
            &&& lower == "m"@ || lower == "minute"@ || lower == "minutes"@ ==> wait == n * 60
                + margin
        }),
{
    units_have_their_seconds(unit);
}

/// A text that gives a time of day, with or without minutes and with or without am or pm, is read
/// as that time of day, of the zone that it names or else of this machine.
pub proof fn stated_time_is_read(
    text: Seq<char>,
    hour: Seq<char>,
    h: nat,
    minute: Option<Seq<char>>,
    m: nat,
    meridiem: Option<Seq<char>>,
    zone: Option<Seq<char>>,
)
    requires
        regex_group(
            r"(?i)resets?\s+(?:at\s+)?(\d{1,2})(?::(\d{2}))?\s*(am|pm)?\s*(?:\(([A-Za-z][A-Za-z0-9_/+\-]*)\))?"@,
            text,
            1,
        ) == Some(hour),
        regex_group(
            r"(?i)resets?\s+(?:at\s+)?(\d{1,2})(?::(\d{2}))?\s*(am|pm)?\s*(?:\(([A-Za-z][A-Za-z0-9_/+\-]*)\))?"@,
            text,
            2,
        ) == minute,
        regex_group(
            r"(?i)resets?\s+(?:at\s+)?(\d{1,2})(?::(\d{2}))?\s*(am|pm)?\s*(?:\(([A-Za-z][A-Za-z0-9_/+\-]*)\))?"@,
            text,
            3,
        ) == meridiem,
        regex_group(
            r"(?i)resets?\s+(?:at\s+)?(\d{1,2})(?::(\d{2}))?\s*(am|pm)?\s*(?:\(([A-Za-z][A-Za-z0-9_/+\-]*)\))?"@,
            text,
            4,
        ) == zone,
        numeral(hour) == Some(h),
        match minute {
            Some(digits) => numeral(digits) == Some(m),
            None => m == 0,
        },
        m < 60,
    ensures
        ({
            let there = match zone {
                Some(name) => zone_of(name),
                None => Zone::Local,
            };
            let am = meridiem is Some && lowercased(meridiem->0) == "am"@;
            let pm = meridiem is Some && lowercased(meridiem->0) == "pm"@;
            let secs = h * 3600 + m * 60;
            &&& am && 1 <= h <= 11 ==> reset_clock(text) == Some((secs, there))
            &&& pm && 1 <= h <= 11 ==> reset_clock(text) == Some((secs + 43_200, there))
            &&& am && h == 12 ==> reset_clock(text) == Some((m * 60, there))
            &&& pm && h == 12 ==> reset_clock(text) == Some((m * 60 + 43_200, there))
            &&& meridiem is None && h <= 23 ==> reset_clock(text) == Some((secs, there))
            &&& meridiem is None && h >= 24 ==> reset_clock(text) is None
        }),
{
    times_of_day(h, m);
    times_of_day(12, m);
}

/// A text without a time of day gives none.
pub proof fn no_time_without_an_hour(text: Seq<char>)
    requires
        regex_group(
            r"(?i)resets?\s+(?:at\s+)?(\d{1,2})(?::(\d{2}))?\s*(am|pm)?\s*(?:\(([A-Za-z][A-Za-z0-9_/+\-]*)\))?"@,
            text,
            1,
        ) is None,
    ensures
        reset_clock(text) is None,
{
}

/// The names of UTC, of local time, of the IANA zones, and the common abbreviations stand for their
/// zones. Any other name stands for local time.
pub proof fn zones_by_name(text: Seq<char>, lower: Seq<char>, upper: Seq<char>, known: bool)
    ensures
        zone_named(text, "utc"@, upper, known) == Zone::Utc,
        zone_named(text, "gmt"@, upper, known) == Zone::Utc,
        zone_named(text, "z"@, upper, known) == Zone::Utc,
        zone_named(text, "local"@, upper, known) == Zone::Local,
        lower != "utc"@ && lower != "gmt"@ && lower != "z"@ && lower != "local"@ ==> {
            &&& zone_named(text, lower, upper, true) == Zone::Named(text)
            &&& zone_named(text, lower, "EST"@, false) == Zone::Named("US/Eastern"@)
            &&& zone_named(text, lower, "EDT"@, false) == Zone::Named("US/Eastern"@)
            &&& zone_named(text, lower, "CST"@, false) == Zone::Named("US/Central"@)
            &&& zone_named(text, lower, "CDT"@, false) == Zone::Named("US/Central"@)
            &&& zone_named(text, lower, "MST"@, false) == Zone::Named("US/Mountain"@)
            &&& zone_named(text, lower, "MDT"@, false) == Zone::Named("US/Mountain"@)
            &&& zone_named(text, lower, "PST"@, false) == Zone::Named("US/Pacific"@)
            &&& zone_named(text, lower, "PDT"@, false) == Zone::Named("US/Pacific"@)
            &&& zone_named(text, lower, "BST"@, false) == Zone::Named("Europe/London"@)
            &&& zone_named(text, lower, "CET"@, false) == Zone::Named("Europe/Paris"@)
            &&& zone_named(text, lower, "CEST"@, false) == Zone::Named("Europe/Paris"@)
            &&& upper != "EST"@ && upper != "EDT"@ && upper != "CST"@ && upper != "CDT"@ && upper
                != "MST"@ && upper != "MDT"@ && upper != "PST"@ && upper != "PDT"@ && upper
                != "BST"@ && upper != "CET"@ && upper != "CEST"@ ==> zone_named(
                text,
                lower,
                upper,
                false,
            ) == Zone::Local
        },
{
    reveal_strlit("utc");
    reveal_strlit("gmt");
    reveal_strlit("z");
    reveal_strlit("local");
    assert("utc"@[0] != "gmt"@[0]);
    assert("utc"@[0] != "local"@[0]);
    assert("gmt"@[0] != "local"@[0]);
    assert("z"@[0] != "local"@[0]);
    abbreviations_differ();
}

proof fn abbreviations_differ()
    ensures
        abbreviated("CST"@) == Some("US/Central"@),
        abbreviated("CDT"@) == Some("US/Central"@),
        abbreviated("MST"@) == Some("US/Mountain"@),
        abbreviated("MDT"@) == Some("US/Mountain"@),
        abbreviated("PST"@) == Some("US/Pacific"@),
        abbreviated("PDT"@) == Some("US/Pacific"@),
        abbreviated("BST"@) == Some("Europe/London"@),
        abbreviated("CET"@) == Some("Europe/Paris"@),
        abbreviated("CEST"@) == Some("Europe/Paris"@),
{
    reveal_strlit("EST");
    reveal_strlit("EDT");
    reveal_strlit("CST");
    reveal_strlit("CDT");
    reveal_strlit("MST");
    reveal_strlit("MDT");
    reveal_strlit("PST");
    reveal_strlit("PDT");
    reveal_strlit("BST");
    reveal_strlit("CET");
    reveal_strlit("CEST");
    assert("EST"@[0] == 'E' && "EDT"@[0] == 'E');
    assert("CST"@[1] == 'S' && "CDT"@[1] == 'D' && "CET"@[1] == 'E' && "CEST"@[1] == 'E');
    assert("CST"@[0] == 'C' && "CDT"@[0] == 'C' && "CET"@[0] == 'C' && "CEST"@[0] == 'C');
    assert("MST"@[0] == 'M' && "MDT"@[0] == 'M');
    assert("PST"@[0] == 'P' && "PDT"@[0] == 'P');
    assert("BST"@[0] == 'B');
}

/// A wait for a time of day of UTC ends in the second in which the clock shows it, at most a day
/// later.
pub proof fn utc_wait_ends_at_the_time(second_of_day: nat, now: Moment)
    requires
        second_of_day < 86_400,
        now.wf(),
    ensures
        ({
            let wait = utc_wait(second_of_day, now);
            &&& now.nanos == 0 ==> 0 < wait <= 86_400 && (now.secs + wait) % 86_400
                == second_of_day
            &&& now.nanos > 0 ==> 0 <= wait < 86_400 && (now.secs + wait + 1) % 86_400
                == second_of_day
        }),
{
    utc_reset_is_next(second_of_day, now);
    seconds_to_are_whole(utc_reset(second_of_day, now), now);
}

/// A text that gives a time of day and no duration makes the wait as long as it is until then, and
/// the margin longer. Of UTC the wait without the margin ends in the second in which the clock
/// shows the time.
pub proof fn time_of_day_plus_margin(text: Seq<char>, margin: nat, fallback: nat, wait: u64)
    requires
        wait_outcome(text, margin, fallback, wait),
        relative_seconds(text) is None,
        reset_clock(text) is Some,
    ensures
        exists|until: u64| #[trigger]
            absolute_outcome(text, Some(until)) && wait == until + margin,
        (reset_clock(text)->0).1 == Zone::Utc && (reset_clock(text)->0).0 < 86_400 ==> exists|
            now: Moment,
        |
            {
                let late: int = if now.nanos == 0 {
                    0
                } else {
                    1
                };
                &&& #[trigger] now.wf()
                &&& (now.secs + (wait - margin) + late) % 86_400 == (reset_clock(text)->0).0
                &&& 0 < (wait - margin) + late <= 86_400
            },
{
    let absolute = choose|absolute: Option<u64>|
        #[trigger] absolute_outcome(text, absolute) && wait == combined_wait(
            None,
            absolute,
            margin,
            fallback,
        );
    assert(absolute is Some);
    assert(absolute_outcome(text, Some(absolute->0)));
    let (secs, zone) = reset_clock(text)->0;
    if zone == Zone::Utc && secs < 86_400 {
        let now = choose|now: Moment|
            #[trigger] now.wf() && (absolute matches Some(n) && n == utc_wait(secs, now));
        utc_wait_ends_at_the_time(secs, now);
        assert(now.wf());
    }
}

/// An unknown zone gives no wait, and at the ends of the calendar a known zone gives that of UTC.
pub proof fn zones_without_a_clock(name: Seq<char>, second_of_day: nat, now: Moment)
    ensures
        !zone_known(name) ==> zone_wait(name, second_of_day, now) is None,
        zone_known(name) && (now.secs < -8_334_601_142_400 || now.secs > 8_210_266_617_599)
            ==> zone_wait(name, second_of_day, now) == Some(utc_wait(second_of_day, now)),
{
}

/// A reset that is due at a time of day of a wall clock takes place at the first instant at which
/// the clock shows it today, if that is still to come, and else at the first one tomorrow. A time
/// that the clock skips is taken as far away as the clock says.
pub proof fn clock_reset_is_next(
    today: Instants,
    tomorrow: Instants,
    now: Moment,
    clock: int,
    second_of_day: nat,
)
    ensures
        ({
            let target = clock_reset(today, tomorrow, now, clock, second_of_day);
            let ahead = (clock - clock % 86_400) + second_of_day - clock;
            let first = match today {
                Instants::Unique(t) => t as int,
                Instants::Ambiguous(t, _) => t as int,
                Instants::Missing => now.secs + ahead,
            };
            let second = match tomorrow {
                Instants::Unique(t) => t as int,
                Instants::Ambiguous(t, _) => t as int,
                Instants::Missing => now.secs + ahead + 86_400,
            };
            &&& first > now.secs ==> target == first
            &&& first <= now.secs ==> target == second
        }),
{
}

/// A text that gives a time of day of a named zone makes the wait that the clock of the zone asks
/// for at some moment.
pub proof fn zone_time_is_waited_for(text: Seq<char>, name: Seq<char>, secs: nat, wait: Option<u64>)
    requires
        absolute_outcome(text, wait),
        reset_clock(text) == Some((secs, Zone::Named(name))),
    ensures
        wait is Some,
        exists|now: Moment| #[trigger]
            now.wf() && zone_wait(name, secs, now) == Some(wait->0 as int),
{
}

/// A text that gives a time of day of this machine makes the wait until the instant that a wall
/// clock asks for, which is less than a day off UTC at that moment.
pub proof fn local_time_is_waited_for(text: Seq<char>, secs: nat, wait: Option<u64>)
    requires
        absolute_outcome(text, wait),
        reset_clock(text) == Some((secs, Zone::Local)),
    ensures
        wait is Some,
        exists|now: Moment, clock: int, today: Instants, tomorrow: Instants|
            {
                &&& now.wf()
                &&& -86_400 < clock - now.secs < 86_400
                &&& today.near((clock - clock % 86_400) + secs)
                &&& tomorrow.near((clock - clock % 86_400) + secs + 86_400)
                &&& wait->0 == seconds_to(
                    #[trigger] clock_reset(today, tomorrow, now, clock, secs),
                    now,
                )
            },
{
    let (now, clock, today, tomorrow) = choose|
        now: Moment,
        clock: int,
        today: Instants,
        tomorrow: Instants,
    | local_outcome_at(secs, now, clock, today, tomorrow, wait->0);
    assert(local_outcome_at(secs, now, clock, today, tomorrow, wait->0));
    assert(wait->0 == seconds_to(clock_reset(today, tomorrow, now, clock, secs), now));
}

/// A wait is too long only where it is: a duration where it exceeds 64 bits with the margin, and a
/// time of day never unless the margin alone comes within four days of that.
pub proof fn only_long_waits_overflow(text: Seq<char>, margin: nat)
    ensures
        relative_seconds(text) matches Some(secs) ==> (wait_overflows(text, margin) <==> secs
            + margin > 18_446_744_073_709_551_615),
        relative_seconds(text) is None && margin + 345_600 <= 18_446_744_073_709_551_615 && (
        reset_clock(text) matches Some((secs, _)) ==> secs < 86_400) ==> !wait_overflows(
            text,
            margin,
        ),
{
    if relative_seconds(text) is None && wait_overflows(text, margin) {
        let absolute = choose|absolute: u64|
            #[trigger] absolute_outcome(text, Some(absolute)) && absolute + margin > u64::MAX;
        assert(absolute_outcome(text, Some(absolute)));
        match reset_clock(text) {
            Some((secs, Zone::Utc)) => {
                if secs < 86_400 {
                    let now = choose|now: Moment|
                        #[trigger] now.wf() && absolute == utc_wait(secs, now);
                    utc_reset_is_next(secs, now);
                }
            },
            Some((secs, Zone::Local)) => {
                let (now, clock, today, tomorrow) = choose|
                    now: Moment,
                    clock: int,
                    today: Instants,
                    tomorrow: Instants,
                | local_outcome_at(secs, now, clock, today, tomorrow, absolute);
                assert(local_outcome_at(secs, now, clock, today, tomorrow, absolute));
            },
            _ => {},
        }
    }
}

/// A zone is seen as what it holds.
pub proof fn zones_show_what_they_hold(name: String)
    ensures
        TzSpec::Named(name)@ == Zone::Named(name@),
        TzSpec::Utc@ == Zone::Utc,
        TzSpec::Local@ == Zone::Local,
{
}

/// A text without an amount of a unit gives no duration, nor does one whose amount exceeds 64 bits.
pub proof fn no_duration_without_an_amount(text: Seq<char>)
    ensures
        regex_group(
            r"(?i)(?:resets?\s+in|try again in)[:\s]\s*(\d+)\s*(hours?|minutes?|h|m)"@,
            text,
            1,
        ) is None ==> relative_seconds(text) is None,
        regex_group(
            r"(?i)(?:resets?\s+in|try again in)[:\s]\s*(\d+)\s*(hours?|minutes?|h|m)"@,
            text,
            1,
        ) matches Some(amount) ==> (numeral(amount) matches Some(n) && n
            > 18_446_744_073_709_551_615 ==> relative_seconds(text) is None),
{
}

/// A name of a zone is judged by how it reads in small and in capital letters, and by whether it is
/// that of an IANA zone.
pub proof fn zone_names_are_judged(text: Seq<char>)
    ensures
        lowercased(text) == "utc"@ || lowercased(text) == "gmt"@ || lowercased(text) == "z"@
            ==> zone_of(text) == Zone::Utc,
        lowercased(text) == "local"@ ==> zone_of(text) == Zone::Local,
        lowercased(text) != "utc"@ && lowercased(text) != "gmt"@ && lowercased(text) != "z"@
            && lowercased(text) != "local"@ ==> {
            &&& zone_known(text) ==> zone_of(text) == Zone::Named(text)
            &&& !zone_known(text) && uppercased(text) == "PST"@ ==> zone_of(text) == Zone::Named(
                "US/Pacific"@,
            )
            &&& !zone_known(text) && uppercased(text) == "BST"@ ==> zone_of(text) == Zone::Named(
                "Europe/London"@,
            )
        },
{
    zones_by_name(text, lowercased(text), uppercased(text), zone_known(text));
}

} // verus!

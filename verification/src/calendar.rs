//! Instants, wall clocks and time zones, as seconds since the start of 1970.
//!
//! An instant is counted in UTC. A wall clock reading is counted as if it were UTC: the seconds
//! from 1970-01-01 00:00:00 on that clock.

use chrono::{DateTime, Local, LocalResult, NaiveDate, TimeZone, Utc};
use chrono_tz::Tz;
use vstd::prelude::*;

verus! {

/// The seconds of a day.
pub const DAY: i64 = 86_400;

/// The first second of the calendar, -262143-01-01 00:00:00.
pub const EARLIEST: i64 = -8_334_601_228_800;

/// The last second of the calendar, 262142-12-31 23:59:59.
pub const LATEST: i64 = 8_210_266_876_799;

/// A point in time.
#[derive(Debug, Clone, Copy, PartialEq, Eq, Structural)]
pub struct Moment {
    pub secs: i64,
    pub nanos: u32,
}

impl Moment {
    /// A moment lies on the calendar, and its nanoseconds make less than a second.
    pub open spec fn wf(self) -> bool {
        EARLIEST <= self.secs <= LATEST && self.nanos < 1_000_000_000
    }

    /// The nanoseconds since the start of 1970.
    pub open spec fn nanoseconds(self) -> int {
        self.secs * 1_000_000_000 + self.nanos
    }
}

/// The instants at which a wall clock shows a given reading.
#[derive(Debug, Clone, Copy, PartialEq, Eq, Structural)]
pub enum Instants {
    /// The clock skips the reading.
    Missing,
    /// The clock shows the reading once.
    Unique(i64),
    /// The clock shows the reading twice: both instants, in the order in which they are reported.
    Ambiguous(i64, i64),
}

/// Whether an offset from UTC is less than a day.
pub open spec fn less_than_a_day(offset: int) -> bool {
    -DAY < offset < DAY
}

impl Instants {
    /// Every instant lies less than a day from the reading.
    pub open spec fn near(self, clock: int) -> bool {
        match self {
            Instants::Missing => true,
            Instants::Unique(t) => less_than_a_day(clock - t),
            Instants::Ambiguous(a, b) => less_than_a_day(clock - a) && less_than_a_day(clock - b),
        }
    }
}

/// Whether `chrono_tz::Tz` knows a time zone of this name.
pub uninterp spec fn zone_known(name: Seq<char>) -> bool;

/// What the wall clock of a time zone shows at an instant; nothing for an unknown zone.
pub uninterp spec fn zone_reading(name: Seq<char>, secs: int) -> Option<int>;

/// The instants at which the wall clock of a time zone shows a reading; nothing for an unknown
/// zone.
pub uninterp spec fn zone_instants(name: Seq<char>, clock: int) -> Option<Instants>;

/// The midnight at which the date that a text gives as year, month and day begins, as
/// `NaiveDate::parse_from_str` reads it; nothing where the text is no date.
pub uninterp spec fn date_reading(text: Seq<char>) -> Option<int>;

/// Trusted: `Utc::now`. The current time lies on the calendar, and its nanoseconds make less
/// than a second.
#[verifier::external_body]
pub(crate) fn utc_now() -> (r: Moment)
    ensures
        r.wf(),
{
    let now = Utc::now();
    Moment { secs: now.timestamp(), nanos: now.timestamp_subsec_nanos() }
}

/// Trusted: `Local::now`. The current time, and what the wall clock of this machine shows then,
/// which differs from UTC by less than a day. Both lie on the calendar.
#[verifier::external_body]
pub(crate) fn local_now() -> (r: (Moment, i64))
    ensures
        r.0.wf(),
        EARLIEST <= r.1 <= LATEST,
        less_than_a_day(r.1 - r.0.secs),
{
    let now = Local::now();
    let moment = Moment { secs: now.timestamp(), nanos: now.timestamp_subsec_nanos() };
    (moment, now.naive_local().and_utc().timestamp())
}

/// Trusted: `Local.from_local_datetime`. The instants at which the wall clock of this machine
/// shows a reading, each less than a day from it. Nothing else is claimed of them: they depend on
/// the time zone of the machine.
#[verifier::external_body]
pub(crate) fn local_instants(clock: i64) -> (r: Instants)
    requires
        EARLIEST <= clock <= LATEST,
    ensures
        r.near(clock as int),
{
    let reading = DateTime::from_timestamp(clock, 0).unwrap().naive_utc();
    match Local.from_local_datetime(&reading) {
        LocalResult::None => Instants::Missing,
        LocalResult::Single(t) => Instants::Unique(t.timestamp()),
        LocalResult::Ambiguous(a, b) => Instants::Ambiguous(a.timestamp(), b.timestamp()),
    }
}

/// The zones that common abbreviations stand for.
pub open spec fn common_zone(name: Seq<char>) -> bool {
    ||| name == "US/Eastern"@
    ||| name == "US/Central"@
    ||| name == "US/Mountain"@
    ||| name == "US/Pacific"@
    ||| name == "Europe/London"@
    ||| name == "Europe/Paris"@
}

/// Trusted: `chrono_tz::Tz::from_str`. Whether a time zone of this name is known depends on the
/// name alone. The zones that common abbreviations stand for are in its table.
#[verifier::external_body]
pub(crate) fn is_zone(name: &str) -> (r: bool)
    ensures
        r == zone_known(name@),
        common_zone(name@) ==> r,
{
    name.parse::<Tz>().is_ok()
}

/// Trusted: `DateTime::with_timezone` to a `chrono_tz::Tz`. What the wall clock of a known zone
/// shows at an instant depends on the zone and the instant alone, differs from UTC by less than a
/// day, and lies on the calendar, which is why the first and the last day are left out.
#[verifier::external_body]
pub(crate) fn zone_clock(name: &str, secs: i64) -> (r: Option<i64>)
    requires
        EARLIEST + DAY <= secs <= LATEST - DAY,
    ensures
        match (r, zone_reading(name@, secs as int)) {
            (Some(clock), Some(reading)) => clock == reading,
            (None, None) => true,
            _ => false,
        },
        r is Some <==> zone_known(name@),
        r matches Some(clock) ==> EARLIEST <= clock <= LATEST && less_than_a_day(clock - secs),
{
    let tz = name.parse::<Tz>().ok()?;
    let there = DateTime::from_timestamp(secs, 0).unwrap().with_timezone(&tz);
    Some(there.naive_local().and_utc().timestamp())
}

/// Trusted: `TimeZone::from_local_datetime` of a `chrono_tz::Tz`. The instants at which the wall
/// clock of a known zone shows a reading depend on the zone and the reading alone, and each lies
/// less than a day from the reading.
#[verifier::external_body]
pub(crate) fn instants_in_zone(name: &str, clock: i64) -> (r: Option<Instants>)
    requires
        EARLIEST <= clock <= LATEST,
    ensures
        r == zone_instants(name@, clock as int),
        r is Some <==> zone_known(name@),
        r matches Some(instants) ==> instants.near(clock as int),
{
    let tz = name.parse::<Tz>().ok()?;
    let reading = DateTime::from_timestamp(clock, 0).unwrap().naive_utc();
    Some(match tz.from_local_datetime(&reading) {
        LocalResult::None => Instants::Missing,
        LocalResult::Single(t) => Instants::Unique(t.timestamp()),
        LocalResult::Ambiguous(a, b) => Instants::Ambiguous(a.timestamp(), b.timestamp()),
    })
}

/// Trusted: `NaiveDate::parse_from_str` with the format `%Y-%m-%d`. The date that a text gives
/// depends on the text alone. It begins on the calendar, at a midnight.
#[verifier::external_body]
pub(crate) fn parse_date(text: &str) -> (r: Option<i64>)
    ensures
        match (r, date_reading(text@)) {
            (Some(midnight), Some(reading)) => midnight == reading,
            (None, None) => true,
            _ => false,
        },
        r matches Some(midnight) ==> EARLIEST <= midnight <= LATEST && midnight as int % DAY as int
            == 0,
{
    let date = NaiveDate::parse_from_str(text, "%Y-%m-%d").ok()?;
    Some(date.and_hms_opt(0, 0, 0)?.and_utc().timestamp())
}

/// The day of a reading as `NaiveDateTime::format` writes it: year, month and day.
pub uninterp spec fn date_written(clock: int) -> Seq<char>;

/// A reading as `NaiveDateTime::format` writes it: year, month, day, hour, minute and second.
pub uninterp spec fn time_written(clock: int) -> Seq<char>;

/// Trusted: `NaiveDateTime::format` with the format `%Y-%m-%d`. The text depends on the reading
/// alone, and `NaiveDate::parse_from_str` reads it back as the day of the reading.
#[verifier::external_body]
pub(crate) fn date_text(clock: i64) -> (r: String)
    requires
        EARLIEST <= clock <= LATEST,
    ensures
        r@ == date_written(clock as int),
        date_reading(r@) == Some(midnight_before(clock as int)),
{
    let reading = DateTime::from_timestamp(clock, 0).unwrap().naive_utc();
    reading.format("%Y-%m-%d").to_string()
}

/// Trusted: `NaiveDateTime::format` with the format `%Y-%m-%d %H:%M:%S`. The text depends on the
/// reading alone.
#[verifier::external_body]
pub(crate) fn time_text(clock: i64) -> (r: String)
    requires
        EARLIEST <= clock <= LATEST,
    ensures
        r@ == time_written(clock as int),
{
    let reading = DateTime::from_timestamp(clock, 0).unwrap().naive_utc();
    reading.format("%Y-%m-%d %H:%M:%S").to_string()
}

/// The midnight at or before a reading.
pub open spec fn midnight_before(clock: int) -> int {
    clock - clock % (DAY as int)
}

/// The reading of the same day at which `second_of_day` seconds have passed since midnight.
pub fn same_day(clock: i64, second_of_day: u32) -> (r: i64)
    requires
        EARLIEST <= clock <= LATEST,
        second_of_day < DAY,
    ensures
        r == midnight_before(clock as int) + second_of_day,
        EARLIEST <= r <= LATEST,
{
    let passed: i64 = match clock.checked_rem_euclid(DAY) {
        Some(n) => n,
        None => 0,
    };
    clock - passed + second_of_day as i64
}

impl Instants {
    /// The instant that is taken for the reading: the one reported first where the reading may be
    /// shown twice, and `nearby` where it is skipped.
    pub open spec fn resolved(self, nearby: int) -> int {
        match self {
            Instants::Missing => nearby,
            Instants::Unique(t) => t as int,
            Instants::Ambiguous(a, _) => a as int,
        }
    }

    /// Takes the one reported first where the reading may be shown twice, and `nearby` where it
    /// is skipped.
    pub fn resolve(&self, nearby: i64) -> (r: i64)
        ensures
            r == self.resolved(nearby as int),
    {
        match self {
            Instants::Missing => nearby,
            Instants::Unique(t) => *t,
            Instants::Ambiguous(a, _) => *a,
        }
    }
}

/// The instant at which a reset takes place that is due each day at some time: today's instant
/// where it is after `reference`, and else tomorrow's.
pub open spec fn next_reset(today: int, tomorrow: int, reference: int) -> int {
    if today > reference {
        today
    } else {
        tomorrow
    }
}

/// The whole seconds from `now` to an instant, and none where it has passed.
pub open spec fn seconds_to(instant: int, now: Moment) -> int {
    let left = instant * 1_000_000_000 - now.nanoseconds();
    if left <= 0 {
        0
    } else {
        left / 1_000_000_000
    }
}

/// The whole seconds from `now` to an instant on the calendar or less than three days off it, and
/// none where it has passed.
pub fn seconds_until(instant: i64, now: Moment) -> (r: u64)
    requires
        EARLIEST - 3 * DAY < instant < LATEST + 3 * DAY,
        now.wf(),
    ensures
        r == seconds_to(instant as int, now),
{
    if instant <= now.secs {
        0
    } else if now.nanos == 0 {
        (instant - now.secs) as u64
    } else {
        (instant - now.secs - 1) as u64
    }
}

/// A day begins at most a day before each of its readings, and at a multiple of a day.
pub proof fn midnight_begins_the_day(clock: int)
    ensures
        midnight_before(clock) % 86_400 == 0,
        midnight_before(clock) <= clock < midnight_before(clock) + 86_400,
{
}

/// The seconds to an instant that is still to come are as many as pass before it, and not one
/// more; to an instant that has passed there are none.
pub proof fn seconds_to_are_whole(instant: int, now: Moment)
    ensures
        ({
            let n = seconds_to(instant, now);
            let left = instant * 1_000_000_000 - (now.secs * 1_000_000_000 + now.nanos);
            &&& left >= 0 ==> n * 1_000_000_000 <= left < (n + 1) * 1_000_000_000
            &&& left < 0 ==> n == 0
        }),
{
}

} // verus!

//! Where the files of this program lie, what a line of the log holds, and which logs are old.

use vstd::prelude::*;

use crate::calendar::{
    date_reading, date_text, date_written, less_than_a_day, local_instants, local_now,
    midnight_before, parse_date, time_text, time_written, Instants, Moment, DAY, EARLIEST, LATEST,
};
use crate::text::chars_of;

verus! {

/// The path of an entry of a directory.
pub open spec fn path_in(directory: Seq<char>, entry: Seq<char>) -> Seq<char> {
    if directory.len() == 0 || directory.last() == '/' {
        directory + entry
    } else {
        directory + "/"@ + entry
    }
}

fn join_path(directory: &str, entry: &str) -> (r: String)
    ensures
        r@ == path_in(directory@, entry@),
{
    let chars = chars_of(directory);
    if chars.len() == 0 || chars[chars.len() - 1] == '/' {
        directory.to_owned().concat(entry)
    } else {
        directory.to_owned().concat("/").concat(entry)
    }
}

/// The directory that the files of this program lie in: the home directory, or the current one
/// where there is none.
pub open spec fn base_directory(home: Option<Seq<char>>) -> Seq<char> {
    match home {
        Some(path) => path,
        None => "."@,
    }
}

fn home_or_here(home: &Option<String>) -> (r: &str)
    ensures
        r@ == base_directory(home.deep_view()),
{
    match home {
        Some(path) => path.as_str(),
        None => ".",
    }
}

/// The path of the settings of a program.
pub open spec fn config_file(home: Option<Seq<char>>, name: Seq<char>) -> Seq<char> {
    path_in(base_directory(home), "."@ + name + ".json"@)
}

/// Finds the settings of the program with this name.
pub fn config_path(home: &Option<String>, name: &str) -> (r: String)
    ensures
        r@ == config_file(home.deep_view(), name@),
{
    join_path(home_or_here(home), ".".to_owned().concat(name).concat(".json").as_str())
}

/// The directory of the logs of a program.
pub open spec fn log_directory(home: Option<Seq<char>>, name: Seq<char>) -> Seq<char> {
    path_in(path_in(base_directory(home), "."@ + name), "logs"@)
}

/// Finds the directory of the logs of the program with this name.
pub fn log_dir(home: &Option<String>, name: &str) -> (r: String)
    ensures
        r@ == log_directory(home.deep_view(), name@),
{
    let own = join_path(home_or_here(home), ".".to_owned().concat(name).as_str());
    join_path(own.as_str(), "logs")
}

/// The path of the log of a day.
pub open spec fn log_file(home: Option<Seq<char>>, name: Seq<char>, date: Seq<char>) -> Seq<char> {
    path_in(log_directory(home, name), date + ".log"@)
}

/// Finds the log of a day.
pub fn log_path(home: &Option<String>, name: &str, date: &str) -> (r: String)
    ensures
        r@ == log_file(home.deep_view(), name@, date@),
{
    join_path(log_dir(home, name).as_str(), date.to_owned().concat(".log").as_str())
}

/// Whether a date is what the wall clock of this machine may show, and is read back as its day.
pub open spec fn date_at(clock: int, date: Seq<char>) -> bool {
    &&& EARLIEST <= clock <= LATEST
    &&& date == date_written(clock)
    &&& date_reading(date) == Some(midnight_before(clock))
}

/// Finds today's log, of the wall clock of this machine.
pub fn today_log_path(home: &Option<String>, name: &str) -> (r: String)
    ensures
        exists|clock: int, date: Seq<char>| #[trigger]
            date_at(clock, date) && r@ == log_file(home.deep_view(), name@, date),
{
    let (_, clock) = local_now();
    let date = date_text(clock);
    assert(date_at(clock as int, date@));
    log_path(home, name, date.as_str())
}

/// A line of the log, without its end.
pub open spec fn entry(time: Seq<char>, line: Seq<char>) -> Seq<char> {
    "["@ + time + "] "@ + line
}

/// Writes a line of the log for a text, with the time of a wall clock reading.
pub fn log_entry(clock: i64, line: &str) -> (r: String)
    requires
        EARLIEST <= clock <= LATEST,
    ensures
        r@ == entry(time_written(clock as int), line@),
{
    let time = time_text(clock);
    "[".to_owned().concat(time.as_str()).concat("] ").concat(line)
}

/// Writes a line of the log for a text, with the time that the wall clock of this machine shows.
pub fn log(line: &str) -> (r: String)
    ensures
        exists|clock: int|
            EARLIEST <= clock <= LATEST && r@ == entry(#[trigger] time_written(clock), line@),
{
    let (_, clock) = local_now();
    log_entry(clock, line)
}

/// Whether a log is old that began at an instant: more than `days` days have passed since.
pub open spec fn outdated(began: int, now: Moment, days: int) -> bool {
    began * 1_000_000_000 < now.nanoseconds() - days * DAY * 1_000_000_000
}

/// Tells whether a log is old that began at an instant.
pub fn is_outdated(began: i64, now: Moment, days: i64) -> (r: bool)
    requires
        now.wf(),
    ensures
        r == outdated(began as int, now, days as int),
{
    let age: i128 = now.secs as i128 - began as i128;
    assert(-0x8000_0000_0000_0000 * 86_400 <= days * DAY <= 0x8000_0000_0000_0000 * 86_400)
        by (nonlinear_arith)
        requires
            -0x8000_0000_0000_0000 <= days <= 0x8000_0000_0000_0000,
            DAY == 86_400,
    ;
    let limit: i128 = days as i128 * DAY as i128;
    age > limit || (age == limit && now.nanos > 0)
}

/// Tells whether the log of a day is old, of the midnight at which the day begins and of the
/// instants at which the wall clock shows it: by the first instant, or by the midnight itself
/// where the clock skips it.
pub fn is_day_outdated(midnight: i64, began: Instants, now: Moment, days: i64) -> (r: bool)
    requires
        now.wf(),
    ensures
        r == outdated(began.resolved(midnight as int), now, days as int),
{
    is_outdated(began.resolve(midnight), now, days)
}

/// Whether a log with this name is old may depend on the time zone of this machine, but by less
/// than a day: a name that is no date never is, and a date is judged by the first instant at which
/// the wall clock shows its midnight, or by the midnight itself where the clock skips it.
pub open spec fn expiry_outcome(name: Seq<char>, now: Moment, days: int, old: bool) -> bool {
    match date_reading(name) {
        None => !old,
        Some(midnight) => {
            &&& exists|began: Instants| #[trigger]
                began.near(midnight) && old == outdated(began.resolved(midnight), now, days)
            &&& outdated(midnight + DAY, now, days) ==> old
            &&& old ==> outdated(midnight - DAY, now, days)
        },
    }
}

fn is_expired(name: &str, now: Moment, days: i64) -> (r: bool)
    requires
        now.wf(),
    ensures
        expiry_outcome(name@, now, days as int, r),
{
    match parse_date(name) {
        None => false,
        Some(midnight) => {
            let began = local_instants(midnight);
            assert(began.near(midnight as int));
            is_day_outdated(midnight, began, now, days)
        },
    }
}

/// Tells which logs are to be removed, of their names without the extension: those that are older
/// than `days` days.
pub fn cleanup_old_logs(names: &Vec<String>, days: i64) -> (r: Vec<bool>)
    ensures
        r@.len() == names@.len(),
        exists|now: Moment| #[trigger]
            now.wf() && forall|i: int|
                0 <= i < names@.len() ==> expiry_outcome(
                    #[trigger] names@[i]@,
                    now,
                    days as int,
                    r@[i],
                ),
{
    let (now, _) = local_now();
    let mut out: Vec<bool> = Vec::new();
    let mut i: usize = 0;
    while i < names.len()
        invariant
            i <= names@.len(),
            out@.len() == i,
            now.wf(),
            forall|j: int|
                0 <= j < i ==> expiry_outcome(#[trigger] names@[j]@, now, days as int, out@[j]),
        decreases names@.len() - i,
    {
        out.push(is_expired(names[i].as_str(), now, days));
        i += 1;
    }
    out
}

/// Today's log is kept where logs are kept for three days or more, whatever the time zone.
pub proof fn todays_log_is_kept(name: Seq<char>, now: Moment, clock: int, days: int, old: bool)
    requires
        now.wf(),
        less_than_a_day(clock - now.secs),
        date_at(clock, name),
        days >= 3,
        expiry_outcome(name, now, days, old),
    ensures
        !old,
{
    assert(days * DAY >= 3 * DAY) by (nonlinear_arith)
        requires
            days >= 3,
    ;
}

/// A log that is old stays old as time passes, and where logs are kept for a shorter time.
pub proof fn old_logs_stay_old(began: int, now: Moment, days: int, later: Moment, fewer: int)
    requires
        outdated(began, now, days),
        now.nanoseconds() <= later.nanoseconds(),
        fewer <= days,
    ensures
        outdated(began, later, fewer),
{
    assert(fewer * DAY <= days * DAY) by (nonlinear_arith)
        requires
            fewer <= days,
    ;
}

/// The files of a program lie in the home directory, or in the current one where there is none,
/// hidden under its name.
pub proof fn files_have_their_places(home: Seq<char>, name: Seq<char>, date: Seq<char>)
    requires
        name.len() > 0,
        name.last() != '/',
        home.len() > 0,
        home.last() != '/',
    ensures
        config_file(Some(home), name) == home + "/."@ + name + ".json"@,
        config_file(Some(home + "/"@), name) == home + "/."@ + name + ".json"@,
        config_file(None, name) == "./."@ + name + ".json"@,
        config_file(Some(Seq::empty()), name) == "."@ + name + ".json"@,
        log_directory(Some(home), name) == home + "/."@ + name + "/logs"@,
        log_directory(None, name) == "./."@ + name + "/logs"@,
        log_file(Some(home), name, date) == home + "/."@ + name + "/logs/"@ + date + ".log"@,
        log_file(None, name, date) == "./."@ + name + "/logs/"@ + date + ".log"@,
{
    reveal_strlit(".");
    reveal_strlit("/");
    reveal_strlit("/.");
    reveal_strlit("./.");
    reveal_strlit("logs");
    reveal_strlit("/logs");
    reveal_strlit("/logs/");
    assert("."@.last() == '.');
    assert((home + "/"@).last() == '/');
    assert(config_file(Some(home), name) =~= home + "/."@ + name + ".json"@);
    assert(config_file(Some(home + "/"@), name) =~= home + "/."@ + name + ".json"@);
    assert(config_file(None, name) =~= "./."@ + name + ".json"@);
    assert(config_file(Some(Seq::empty()), name) =~= "."@ + name + ".json"@);
    let own = path_in(home, "."@ + name);
    assert(own =~= home + "/."@ + name);
    assert(own.last() == name.last());
    let here = path_in("."@, "."@ + name);
    assert(here =~= "./."@ + name);
    assert(here.last() == name.last());
    let logs = log_directory(Some(home), name);
    assert(logs =~= home + "/."@ + name + "/logs"@);
    assert(logs.last() == 's');
    let logs_here = log_directory(None, name);
    assert(logs_here =~= "./."@ + name + "/logs"@);
    assert(logs_here.last() == 's');
    assert(log_file(Some(home), name, date) =~= home + "/."@ + name + "/logs/"@ + date + ".log"@);
    assert(log_file(None, name, date) =~= "./."@ + name + "/logs/"@ + date + ".log"@);
}

/// A log is old once more than its days have passed since it began, to the nanosecond.
pub proof fn logs_grow_old(began: int, now: Moment, days: int)
    requires
        now.wf(),
    ensures
        now.secs - began > days * 86_400 ==> outdated(began, now, days),
        now.secs - began == days * 86_400 ==> (outdated(began, now, days) <==> now.nanos > 0),
        now.secs - began < days * 86_400 ==> !outdated(began, now, days),
{
}

/// A line of the log is the text behind the time in brackets.
pub proof fn log_lines_hold_the_text(time: Seq<char>, line: Seq<char>)
    ensures
        entry(time, line).len() == time.len() + line.len() + 3,
        entry(time, line)[0] == '[',
        entry(time, line).subrange(1, time.len() as int + 1) == time,
        entry(time, line)[time.len() as int + 1] == ']',
        entry(time, line)[time.len() as int + 2] == ' ',
        entry(time, line).skip(time.len() as int + 3) == line,
{
    reveal_strlit("[");
    reveal_strlit("] ");
    assert(entry(time, line).subrange(1, time.len() as int + 1) =~= time);
    assert(entry(time, line).skip(time.len() as int + 3) =~= line);
}

/// A log is removed once its day began more than `days` days and one day ago, whatever the time
/// zone, and kept while its day began less than `days` days less one day ago. A file whose name is
/// no date is never removed.
pub proof fn past_logs_are_removed(name: Seq<char>, now: Moment, days: int, old: bool)
    requires
        now.wf(),
        expiry_outcome(name, now, days, old),
    ensures
        date_reading(name) is None ==> !old,
        date_reading(name) matches Some(midnight) ==> {
            &&& now.secs - midnight > (days + 1) * 86_400 ==> old
            &&& now.secs - midnight < (days - 1) * 86_400 ==> !old
        },
{
    if let Some(midnight) = date_reading(name) {
        logs_grow_old(midnight + 86_400, now, days);
        logs_grow_old(midnight - 86_400, now, days);
        assert((days + 1) * 86_400 == days * 86_400 + 86_400);
        assert((days - 1) * 86_400 == days * 86_400 - 86_400);
    }
}

} // verus!

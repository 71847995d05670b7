//! Recognising a rate limit in what a terminal shows.

use vstd::prelude::*;

use crate::regexp::{found, occurs, regex_is_match, regex_replace_all, replace_all, Pattern};
use crate::text::{join, joined, lines, lines_of, trim, trimmed};

verus! {

/// "Type 2b rate limited".
pub const TYPE_2B: &'static str = r"(?i)type\s*2b\s*rate\s*limit";

/// "temporarily limiting requests".
pub const LIMITING: &'static str = r"(?i)temporarily limiting requests";

/// "Server is temporarily ...".
pub const TEMPORARILY: &'static str = r"(?i)server is temporarily";

/// "Too many requests".
pub const TOO_MANY: &'static str = r"(?i)too many requests";

/// "429 Too Many Requests".
pub const STATUS_429: &'static str = r"(?i)429\s*(?:too many requests|rate limit)";

/// "you've hit your 5-hour limit", "exceeded the limit".
pub const LIMIT_HIT: &'static str =
    r"(?i)(?:hit|exceeded|reached|over)\s+(?:your|the)\s+(?:\d+-hour\s+)?(?:usage\s+|rate\s+)?limit";

/// "rate limit reached", "usage limit exceeded", "limit reached".
pub const LIMIT_REACHED: &'static str = r"(?i)(?:usage|rate|request)?\s*limit\s+(?:reached|exceeded|hit)";

/// "you've reached your ...", "you have hit the ...".
pub const YOU_HAVE_HIT: &'static str = r"(?i)(?:you've|you\s+have)\s+(?:hit|exceeded|reached)\s+(?:your|the)";

/// "out of usage", "out of requests".
pub const OUT_OF: &'static str = r"(?i)out of\s+(?:usage|requests|quota|tokens)";

/// "resets at 3:30 pm", "resets 3pm".
pub const RESETS_AT: &'static str = r"(?i)resets?\s+(?:at\s+)?\d{1,2}(?::\d{2})?\s*(?:am|pm)?";

/// "resets in 2h", "resets 1h27m", "resets 5m".
pub const RESETS_IN: &'static str = r"(?i)resets?\s+(?:in\s+)?\d+\s*(?:hours?|minutes?|h|m)";

/// "try again in 2 hours".
pub const TRY_AGAIN_IN: &'static str = r"(?i)try again in \d+\s*(?:hours?|minutes?|h|m)";

/// CSI sequences, OSC sequences, and DCS, SOS, APC and PM strings.
pub const ANSI_ESCAPE: &'static str =
    r"\x1b\[[\x20-\x3f]*[\x40-\x7e]|\x1b\][\s\S]*?(?:\x07|\x1b\\)|\x1b[PX_^][\s\S]*?(?:\x07|\x1b\\)";

/// The patterns that indicate a rate limit on their own: no reset time is needed.
pub open spec fn standalone_patterns() -> Seq<Seq<char>> {
    seq![TYPE_2B@, LIMITING@, TEMPORARILY@, TOO_MANY@, STATUS_429@]
}

/// The patterns that say that an account limit was hit. Each requires an action word, so that a
/// limit that is only mentioned does not count.
pub open spec fn limit_patterns() -> Seq<Seq<char>> {
    seq![LIMIT_HIT@, LIMIT_REACHED@, YOU_HAVE_HIT@, OUT_OF@]
}

/// The patterns that tell of a reset time.
pub open spec fn reset_patterns() -> Seq<Seq<char>> {
    seq![RESETS_AT@, RESETS_IN@, TRY_AGAIN_IN@]
}

fn standalone() -> (r: Vec<&'static str>)
    ensures
        r.deep_view() == standalone_patterns(),
{
    let r = vec![TYPE_2B, LIMITING, TEMPORARILY, TOO_MANY, STATUS_429];
    assert(r.deep_view() =~= standalone_patterns());
    r
}

fn limit() -> (r: Vec<&'static str>)
    ensures
        r.deep_view() == limit_patterns(),
{
    let r = vec![LIMIT_HIT, LIMIT_REACHED, YOU_HAVE_HIT, OUT_OF];
    assert(r.deep_view() =~= limit_patterns());
    r
}

fn reset() -> (r: Vec<&'static str>)
    ensures
        r.deep_view() == reset_patterns(),
{
    let r = vec![RESETS_AT, RESETS_IN, TRY_AGAIN_IN];
    assert(r.deep_view() =~= reset_patterns());
    r
}

/// A text without its ANSI escape sequences.
pub open spec fn stripped(text: Seq<char>) -> Seq<char> {
    match regex_replace_all(ANSI_ESCAPE@, text, Seq::empty()) {
        Some(clean) => clean,
        None => text,
    }
}

/// Strips ANSI escape sequences from terminal output.
pub fn strip_ansi(text: &str) -> (r: String)
    ensures
        r@ == stripped(text@),
{
    proof {
        reveal_strlit("");
        assert(""@ =~= Seq::<char>::empty());
    }
    match replace_all(ANSI_ESCAPE, text, "") {
        Some(clean) => clean,
        None => text.to_owned(),
    }
}

/// What kind of rate limit was met.
#[derive(Debug, Clone, Copy, PartialEq, Eq, Structural)]
pub enum RateLimitKind {
    /// A throttle on the side of the server: there is no reset time, back off exponentially.
    ServerThrottle,
    /// A limit on the usage of the account, with a reset time.
    AccountLimit,
}

/// A rate limit, and the line that tells of it.
#[derive(Debug)]
pub struct RateLimitDetection {
    pub kind: RateLimitKind,
    pub message: Option<String>,
}

impl View for RateLimitDetection {
    type V = (RateLimitKind, Option<Seq<char>>);

    /// The kind, and the characters of the message.
    open spec fn view(&self) -> (RateLimitKind, Option<Seq<char>>) {
        (self.kind, self.message.deep_view())
    }
}

impl DeepView for RateLimitDetection {
    type V = (RateLimitKind, Option<Seq<char>>);

    open spec fn deep_view(&self) -> (RateLimitKind, Option<Seq<char>>) {
        self@
    }
}

/// How far from a line that tells of a limit its reset time may stand, in lines.
pub const WINDOW: usize = 6;

/// For each line, whether `pattern` occurs in it.
pub open spec fn hits(pattern: Seq<char>, lines: Seq<Seq<char>>) -> Seq<bool> {
    Seq::new(lines.len(), |i: int| occurs(pattern, lines[i]))
}

/// Whether one of the patterns occurs in `text`.
pub open spec fn any_occurs(patterns: Seq<Seq<char>>, text: Seq<char>) -> bool {
    exists|k: int| 0 <= k < patterns.len() && occurs(#[trigger] patterns[k], text)
}

/// For each line, whether one of the patterns occurs in it.
pub open spec fn any_hits(patterns: Seq<Seq<char>>, lines: Seq<Seq<char>>) -> Seq<bool> {
    Seq::new(lines.len(), |i: int| any_occurs(patterns, lines[i]))
}

/// Where a pattern occurs in the whole text: for each line, whether the first such pattern
/// occurs in it.
pub open spec fn first_scan(
    patterns: Seq<Seq<char>>,
    full: Seq<char>,
    lines: Seq<Seq<char>>,
) -> Option<Seq<bool>>
    decreases patterns.len(),
{
    if patterns.len() == 0 {
        None
    } else if occurs(patterns[0], full) {
        Some(hits(patterns[0], lines))
    } else {
        first_scan(patterns.skip(1), full, lines)
    }
}

fn line_hits(pattern: &str, lines: &Vec<String>) -> (r: Vec<bool>)
    ensures
        r@ == hits(pattern@, lines.deep_view()),
{
    let mut out: Vec<bool> = Vec::new();
    for line in it: lines.iter()
        invariant
            it.seq().len() == lines@.len(),
            forall|k: int| 0 <= k < lines@.len() ==> *it.seq()[k] == lines@[k],
            out@ == hits(pattern@, lines.deep_view()).take(it.index()),
    {
        out.push(found(pattern, line.as_str()));
        assert(out@ =~= hits(pattern@, lines.deep_view()).take(it.index() + 1));
    }
    assert(out@ =~= hits(pattern@, lines.deep_view()));
    out
}

fn any_found(patterns: &Vec<&str>, text: &str) -> (r: bool)
    ensures
        r == any_occurs(patterns.deep_view(), text@),
{
    let mut k: usize = 0;
    while k < patterns.len()
        invariant
            k <= patterns@.len(),
            forall|m: int| 0 <= m < k ==> !occurs(#[trigger] patterns.deep_view()[m], text@),
        decreases patterns@.len() - k,
    {
        if found(patterns[k], text) {
            assert(occurs(patterns.deep_view()[k as int], text@));
            return true;
        }
        k += 1;
    }
    false
}

fn any_line_hits(patterns: &Vec<&str>, lines: &Vec<String>) -> (r: Vec<bool>)
    ensures
        r@ == any_hits(patterns.deep_view(), lines.deep_view()),
{
    let mut out: Vec<bool> = Vec::new();
    let mut i: usize = 0;
    while i < lines.len()
        invariant
            i <= lines@.len(),
            out@ == any_hits(patterns.deep_view(), lines.deep_view()).take(i as int),
        decreases lines@.len() - i,
    {
        out.push(any_found(patterns, lines[i].as_str()));
        i += 1;
        assert(out@ =~= any_hits(patterns.deep_view(), lines.deep_view()).take(i as int));
    }
    assert(out@ =~= any_hits(patterns.deep_view(), lines.deep_view()));
    out
}

fn scan(patterns: &Vec<&str>, full: &str, lines: &Vec<String>) -> (r: Option<Vec<bool>>)
    ensures
        r.deep_view() == first_scan(patterns.deep_view(), full@, lines.deep_view()),
{
    let ghost all = patterns.deep_view();
    let mut k: usize = 0;
    assert(all.skip(0) == all);
    while k < patterns.len()
        invariant
            k <= patterns@.len(),
            all == patterns.deep_view(),
            first_scan(all.skip(k as int), full@, lines.deep_view()) == first_scan(
                all,
                full@,
                lines.deep_view(),
            ),
        decreases patterns@.len() - k,
    {
        if found(patterns[k], full) {
            let flags = line_hits(patterns[k], lines);
            assert(flags.deep_view() =~= flags@);
            return Some(flags);
        }
        assert(all.skip(k as int).skip(1) == all.skip(k + 1));
        k += 1;
    }
    None
}

/// Whether line `i` tells of a limit and a reset time stands near it.
pub open spec fn near_reset(limit: Seq<bool>, reset: Seq<bool>, i: int) -> bool {
    &&& 0 <= i < limit.len()
    &&& limit[i]
    &&& exists|j: int| in_window(reset, i, j) && #[trigger] reset[j]
}

/// Whether `j` is a line that lies near line `i`.
pub open spec fn in_window(reset: Seq<bool>, i: int, j: int) -> bool {
    0 <= j < reset.len() && i - WINDOW <= j <= i + WINDOW
}

/// Whether line `i` is the first one that tells of a limit with a reset time near it, and line
/// `j` the first one near it that holds a reset time.
pub open spec fn reports(limit: Seq<bool>, reset: Seq<bool>, i: int, j: int) -> bool {
    &&& near_reset(limit, reset, i)
    &&& forall|k: int| k < i ==> !#[trigger] near_reset(limit, reset, k)
    &&& in_window(reset, i, j)
    &&& reset[j]
    &&& forall|k: int| k < j && in_window(reset, i, k) ==> !#[trigger] reset[k]
}

/// The line whose reset time belongs to the first account limit, where there is one.
pub open spec fn account_line(limit: Seq<bool>, reset: Seq<bool>) -> Option<int> {
    if exists|i: int, j: int| reports(limit, reset, i, j) {
        let (i, j) = choose|i: int, j: int| reports(limit, reset, i, j);
        Some(j)
    } else {
        None
    }
}

proof fn reports_once(limit: Seq<bool>, reset: Seq<bool>, i: int, j: int)
    requires
        reports(limit, reset, i, j),
    ensures
        account_line(limit, reset) == Some(j),
{
    let (a, b) = choose|a: int, b: int| reports(limit, reset, a, b);
    assert(reports(limit, reset, a, b));
    if a < i {
        assert(!near_reset(limit, reset, a));
    }
    if i < a {
        assert(!near_reset(limit, reset, i));
    }
}

/// Finds the line whose reset time belongs to the first account limit.
pub fn find_account_line(limit: &Vec<bool>, reset: &Vec<bool>) -> (r: Option<usize>)
    requires
        limit@.len() == reset@.len(),
    ensures
        match r {
            Some(j) => j < reset@.len() && account_line(limit@, reset@) == Some(j as int),
            None => account_line(limit@, reset@) is None,
        },
{
    let mut i: usize = 0;
    while i < limit.len()
        invariant
            i <= limit@.len() == reset@.len(),
            forall|k: int| k < i ==> !#[trigger] near_reset(limit@, reset@, k),
        decreases limit@.len() - i,
    {
        if limit[i] {
            let start: usize = if i < WINDOW {
                0
            } else {
                i - WINDOW
            };
            let end: usize = if limit.len() - i <= WINDOW {
                limit.len()
            } else {
                i + WINDOW + 1
            };
            let mut j: usize = start;
            while j < end
                invariant
                    i < limit@.len() == reset@.len(),
                    limit@[i as int],
                    start <= j <= end <= limit@.len(),
                    forall|k: int| in_window(reset@, i as int, k) <==> start <= k < end,
                    forall|k: int| start <= k < j ==> !#[trigger] reset@[k],
                    forall|k: int| k < i ==> !#[trigger] near_reset(limit@, reset@, k),
                decreases end - j,
            {
                if reset[j] {
                    proof {
                        assert(near_reset(limit@, reset@, i as int));
                        assert(reports(limit@, reset@, i as int, j as int));
                        reports_once(limit@, reset@, i as int, j as int);
                    }
                    return Some(j);
                }
                j += 1;
            }
        }
        assert(!near_reset(limit@, reset@, i as int));
        i += 1;
    }
    assert forall|a: int, b: int| !reports(limit@, reset@, a, b) by {
        assert(!near_reset(limit@, reset@, a));
    }
    None
}

/// The first line that is flagged, trimmed.
pub open spec fn first_flagged(lines: Seq<Seq<char>>, flags: Seq<bool>) -> Option<Seq<char>> {
    match flags.index_of_first(true) {
        Some(i) => Some(trimmed(lines[i])),
        None => None,
    }
}

fn first_flagged_line(lines: &Vec<String>, flags: &Vec<bool>) -> (r: Option<String>)
    requires
        lines@.len() == flags@.len(),
    ensures
        r.deep_view() == first_flagged(lines.deep_view(), flags@),
{
    proof {
        flags@.index_of_first_ensures(true);
    }
    let mut i: usize = 0;
    while i < flags.len()
        invariant
            i <= flags@.len() == lines@.len(),
            forall|k: int| 0 <= k < i ==> !#[trigger] flags@[k],
            match flags@.index_of_first(true) {
                Some(index) => {
                    &&& 0 <= index < flags@.len()
                    &&& flags@[index] == true
                    &&& forall|j: int| 0 <= j < index < flags@.len() ==> flags@[j] != true
                },
                None => !flags@.contains(true),
            },
        decreases flags@.len() - i,
    {
        if flags[i] {
            assert(flags@.contains(true));
            assert(flags@.index_of_first(true) == Some(i as int));
            return Some(trim(lines[i].as_str()));
        }
        i += 1;
    }
    None
}

/// What the marks on the lines of a screen amount to. A custom pattern comes before a standalone
/// one, and that before an account limit, which needs a reset time near it.
pub open spec fn decision(
    lines: Seq<Seq<char>>,
    custom: Option<Seq<bool>>,
    standalone: Option<Seq<bool>>,
    limit: Seq<bool>,
    reset: Seq<bool>,
) -> Option<(RateLimitKind, Option<Seq<char>>)> {
    match (custom, standalone, account_line(limit, reset)) {
        (Some(flags), _, _) => Some((RateLimitKind::AccountLimit, first_flagged(lines, flags))),
        (None, Some(flags), _) => Some(
            (RateLimitKind::ServerThrottle, first_flagged(lines, flags)),
        ),
        (None, None, Some(j)) => Some((RateLimitKind::AccountLimit, Some(trimmed(lines[j])))),
        (None, None, None) => None,
    }
}

/// Decides what the marks on the lines of a screen amount to: for a custom and for a standalone
/// pattern that was found in the whole text, the lines it was found in; the lines that tell of an
/// account limit; and the lines that hold a reset time.
pub fn decide(
    lines: &Vec<String>,
    custom: &Option<Vec<bool>>,
    standalone: &Option<Vec<bool>>,
    limit: &Vec<bool>,
    reset: &Vec<bool>,
) -> (r: Option<RateLimitDetection>)
    requires
        custom matches Some(flags) ==> flags@.len() == lines@.len(),
        standalone matches Some(flags) ==> flags@.len() == lines@.len(),
        limit@.len() == lines@.len(),
        reset@.len() == lines@.len(),
    ensures
        r.deep_view() == decision(
            lines.deep_view(),
            custom.deep_view(),
            standalone.deep_view(),
            limit@,
            reset@,
        ),
{
    if let Some(flags) = custom {
        assert(flags.deep_view() =~= flags@);
        return Some(
            RateLimitDetection {
                kind: RateLimitKind::AccountLimit,
                message: first_flagged_line(lines, flags),
            },
        );
    }
    if let Some(flags) = standalone {
        assert(flags.deep_view() =~= flags@);
        return Some(
            RateLimitDetection {
                kind: RateLimitKind::ServerThrottle,
                message: first_flagged_line(lines, flags),
            },
        );
    }
    match find_account_line(limit, reset) {
        Some(j) => Some(
            RateLimitDetection {
                kind: RateLimitKind::AccountLimit,
                message: Some(trim(lines[j].as_str())),
            },
        ),
        None => None,
    }
}

/// The lines that a terminal shows in `text`.
pub open spec fn shown_lines(text: Seq<char>) -> Seq<Seq<char>> {
    lines_of(stripped(text))
}

/// The rate limit that a text tells of.
pub open spec fn detection(text: Seq<char>, custom: Seq<Seq<char>>) -> Option<
    (RateLimitKind, Option<Seq<char>>),
> {
    let lines = shown_lines(text);
    let full = joined(lines, "\n"@);
    decision(
        lines,
        first_scan(custom, full, lines),
        first_scan(standalone_patterns(), full, lines),
        any_hits(limit_patterns(), lines),
        any_hits(reset_patterns(), lines),
    )
}

fn sources(patterns: &[Pattern]) -> (r: Vec<&str>)
    ensures
        r.deep_view() == patterns.deep_view(),
{
    let mut out: Vec<&str> = Vec::new();
    let mut i: usize = 0;
    while i < patterns.len()
        invariant
            i <= patterns@.len(),
            out.deep_view() == patterns.deep_view().take(i as int),
        decreases patterns@.len() - i,
    {
        let ghost before = out.deep_view();
        out.push(patterns[i].as_str());
        assert(out.deep_view() =~= before.push(patterns@[i as int]@));
        i += 1;
        assert(out.deep_view() =~= patterns.deep_view().take(i as int));
    }
    assert(out.deep_view() =~= patterns.deep_view());
    out
}

proof fn first_scan_len(patterns: Seq<Seq<char>>, full: Seq<char>, lines: Seq<Seq<char>>)
    ensures
        first_scan(patterns, full, lines) matches Some(flags) ==> flags.len() == lines.len(),
    decreases patterns.len(),
{
    if patterns.len() > 0 {
        first_scan_len(patterns.skip(1), full, lines);
    }
}

/// Marks the lines that hold a reset time, unless no line tells of a limit: then no mark matters.
fn reset_hits(limit: &Vec<bool>, lines: &Vec<String>) -> (r: Vec<bool>)
    requires
        limit@.len() == lines@.len(),
    ensures
        r@.len() == lines@.len(),
        account_line(limit@, r@) == account_line(
            limit@,
            any_hits(reset_patterns(), lines.deep_view()),
        ),
{
    let mut unmarked: Vec<bool> = Vec::new();
    let mut i: usize = 0;
    while i < limit.len()
        invariant
            i <= limit@.len() == lines@.len(),
            unmarked@.len() == i,
            forall|k: int| 0 <= k < i ==> !#[trigger] limit@[k],
        decreases limit@.len() - i,
    {
        if limit[i] {
            return any_line_hits(&reset(), lines);
        }
        unmarked.push(false);
        i += 1;
    }
    unmarked
}

/// Checks whether a text tells of a rate limit. Custom patterns are evaluated first and treated
/// as account limits: if a reset time is nearby, it is used; otherwise the fallback wait applies.
pub fn detect_rate_limit(text: &str, custom: &[Pattern]) -> (r: Option<RateLimitDetection>)
    ensures
        r.deep_view() == detection(text@, custom.deep_view()),
{
    let clean = strip_ansi(text);
    let shown = lines(clean.as_str());
    let full = join(&shown, "\n");
    let custom_flags = scan(&sources(custom), full.as_str(), &shown);
    let standalone_flags = scan(&standalone(), full.as_str(), &shown);
    let limit_flags = any_line_hits(&limit(), &shown);
    let reset_flags = reset_hits(&limit_flags, &shown);
    proof {
        first_scan_len(custom.deep_view(), full@, shown.deep_view());
        first_scan_len(standalone_patterns(), full@, shown.deep_view());
    }
    decide(&shown, &custom_flags, &standalone_flags, &limit_flags, &reset_flags)
}

proof fn first_scan_finds(patterns: Seq<Seq<char>>, full: Seq<char>, lines: Seq<Seq<char>>)
    ensures
        first_scan(patterns, full, lines) is Some <==> any_occurs(patterns, full),
    decreases patterns.len(),
{
    if patterns.len() > 0 {
        let rest = patterns.skip(1);
        first_scan_finds(rest, full, lines);
        if any_occurs(rest, full) {
            let k = choose|k: int| 0 <= k < rest.len() && occurs(#[trigger] rest[k], full);
            assert(occurs(patterns[k + 1], full));
        }
        if any_occurs(patterns, full) && !occurs(patterns[0], full) {
            let k = choose|k: int| 0 <= k < patterns.len() && occurs(#[trigger] patterns[k], full);
            assert(occurs(rest[k - 1], full));
        }
    }
}

proof fn account_line_at(limit: Seq<bool>, reset: Seq<bool>, i: int, j: int)
    requires
        near_reset(limit, reset, i),
        in_window(reset, i, j),
        reset[j],
    ensures
        account_line(limit, reset) is Some,
    decreases i, j,
{
    if exists|k: int| k < i && #[trigger] near_reset(limit, reset, k) {
        let k = choose|k: int| k < i && #[trigger] near_reset(limit, reset, k);
        let m = choose|m: int| in_window(reset, k, m) && #[trigger] reset[m];
        account_line_at(limit, reset, k, m);
    } else if exists|k: int| k < j && in_window(reset, i, k) && #[trigger] reset[k] {
        let k = choose|k: int| k < j && in_window(reset, i, k) && #[trigger] reset[k];
        account_line_at(limit, reset, i, k);
    } else {
        assert(reports(limit, reset, i, j));
    }
}

/// A custom pattern that occurs on the screen makes an account limit of whatever else is shown,
/// so that users can override the built-in patterns.
pub proof fn custom_pattern_wins(text: Seq<char>, custom: Seq<Seq<char>>)
    requires
        any_occurs(custom, joined(shown_lines(text), "\n"@)),
    ensures
        detection(text, custom) matches Some((kind, _)) && kind == RateLimitKind::AccountLimit,
{
    let lines = shown_lines(text);
    first_scan_finds(custom, joined(lines, "\n"@), lines);
}

/// A standalone pattern that occurs on the screen makes a server throttle, with or without a
/// reset time, unless a custom pattern occurs too.
pub proof fn standalone_pattern_is_throttle(text: Seq<char>, custom: Seq<Seq<char>>)
    requires
        any_occurs(standalone_patterns(), joined(shown_lines(text), "\n"@)),
        !any_occurs(custom, joined(shown_lines(text), "\n"@)),
    ensures
        detection(text, custom) matches Some((kind, _)) && kind == RateLimitKind::ServerThrottle,
{
    let lines = shown_lines(text);
    first_scan_finds(custom, joined(lines, "\n"@), lines);
    first_scan_finds(standalone_patterns(), joined(lines, "\n"@), lines);
}

/// Whether a line of the screen says that a limit was hit, and a line near it when it resets.
pub open spec fn limit_near_reset(lines: Seq<Seq<char>>, i: int, j: int) -> bool {
    &&& 0 <= i < lines.len()
    &&& 0 <= j < lines.len()
    &&& i - WINDOW <= j <= i + WINDOW
    &&& any_occurs(limit_patterns(), lines[i])
    &&& any_occurs(reset_patterns(), lines[j])
}

/// Without a custom and a standalone pattern, a rate limit is seen exactly where one line says
/// that a limit was hit and a line near it when it resets: neither the mention of a reset time
/// nor that of a limit is enough by itself.
pub proof fn account_limit_needs_both(text: Seq<char>, custom: Seq<Seq<char>>)
    requires
        !any_occurs(standalone_patterns(), joined(shown_lines(text), "\n"@)),
        !any_occurs(custom, joined(shown_lines(text), "\n"@)),
    ensures
        detection(text, custom) is Some <==> exists|i: int, j: int|
            limit_near_reset(shown_lines(text), i, j),
        detection(text, custom) matches Some((kind, message)) ==> {
            &&& kind == RateLimitKind::AccountLimit
            &&& exists|j: int|
                0 <= j < shown_lines(text).len() && #[trigger] any_occurs(
                    reset_patterns(),
                    shown_lines(text)[j],
                ) && message == Some(trimmed(shown_lines(text)[j]))
        },
{
    let lines = shown_lines(text);
    let full = joined(lines, "\n"@);
    let limit = any_hits(limit_patterns(), lines);
    let reset = any_hits(reset_patterns(), lines);
    first_scan_finds(custom, full, lines);
    first_scan_finds(standalone_patterns(), full, lines);
    if exists|i: int, j: int| limit_near_reset(lines, i, j) {
        let (i, j) = choose|i: int, j: int| limit_near_reset(lines, i, j);
        assert(in_window(reset, i, j) && reset[j]);
        assert(near_reset(limit, reset, i));
        account_line_at(limit, reset, i, j);
    }
    if account_line(limit, reset) is Some {
        let (i, j) = choose|i: int, j: int| reports(limit, reset, i, j);
        assert(reports(limit, reset, i, j));
        assert(limit_near_reset(lines, i, j));
        assert(any_occurs(reset_patterns(), lines[j]));
    }
}

/// Whether a text holds one of the phrases with which a server tells of a throttle.
pub open spec fn says_throttle(text: Seq<char>) -> bool {
    ||| regex_is_match(r"(?i)type\s*2b\s*rate\s*limit"@, text) == Some(true)
    ||| regex_is_match(r"(?i)temporarily limiting requests"@, text) == Some(true)
    ||| regex_is_match(r"(?i)server is temporarily"@, text) == Some(true)
    ||| regex_is_match(r"(?i)too many requests"@, text) == Some(true)
    ||| regex_is_match(r"(?i)429\s*(?:too many requests|rate limit)"@, text) == Some(true)
}

/// Whether a line says that a limit of the account was hit.
pub open spec fn says_limit(line: Seq<char>) -> bool {
    ||| regex_is_match(r"(?i)(?:hit|exceeded|reached|over)\s+(?:your|the)\s+(?:\d+-hour\s+)?(?:usage\s+|rate\s+)?limit"@, line) == Some(true)
    ||| regex_is_match(r"(?i)(?:usage|rate|request)?\s*limit\s+(?:reached|exceeded|hit)"@, line) == Some(true)
    ||| regex_is_match(r"(?i)(?:you've|you\s+have)\s+(?:hit|exceeded|reached)\s+(?:your|the)"@, line) == Some(true)
    ||| regex_is_match(r"(?i)out of\s+(?:usage|requests|quota|tokens)"@, line) == Some(true)
}

/// Whether a line says when a limit resets.
pub open spec fn says_reset(line: Seq<char>) -> bool {
    ||| regex_is_match(r"(?i)resets?\s+(?:at\s+)?\d{1,2}(?::\d{2})?\s*(?:am|pm)?"@, line) == Some(true)
    ||| regex_is_match(r"(?i)resets?\s+(?:in\s+)?\d+\s*(?:hours?|minutes?|h|m)"@, line) == Some(true)
    ||| regex_is_match(r"(?i)try again in \d+\s*(?:hours?|minutes?|h|m)"@, line) == Some(true)
}

/// Whether one of the custom patterns matches a text.
pub open spec fn says_custom(custom: Seq<Seq<char>>, text: Seq<char>) -> bool {
    exists|k: int| 0 <= k < custom.len() && regex_is_match(#[trigger] custom[k], text) == Some(true)
}

proof fn phrases(text: Seq<char>, custom: Seq<Seq<char>>)
    ensures
        any_occurs(standalone_patterns(), text) == says_throttle(text),
        any_occurs(limit_patterns(), text) == says_limit(text),
        any_occurs(reset_patterns(), text) == says_reset(text),
        any_occurs(custom, text) == says_custom(custom, text),
{
    let s = standalone_patterns();
    assert(says_throttle(text) ==> occurs(s[0], text) || occurs(s[1], text) || occurs(s[2], text)
        || occurs(s[3], text) || occurs(s[4], text));
    let l = limit_patterns();
    assert(says_limit(text) ==> occurs(l[0], text) || occurs(l[1], text) || occurs(l[2], text)
        || occurs(l[3], text));
    let r = reset_patterns();
    assert(says_reset(text) ==> occurs(r[0], text) || occurs(r[1], text) || occurs(r[2], text));
    if says_custom(custom, text) {
        let k = choose|k: int|
            0 <= k < custom.len() && regex_is_match(#[trigger] custom[k], text) == Some(true);
        assert(occurs(custom[k], text));
    }
}

/// What is looked at is the text without its escape sequences, line by line, and as a whole with a
/// line feed between two lines.
proof fn cleaned(text: Seq<char>, clean: Seq<char>)
    requires
        regex_replace_all(
            r"\x1b\[[\x20-\x3f]*[\x40-\x7e]|\x1b\][\s\S]*?(?:\x07|\x1b\\)|\x1b[PX_^][\s\S]*?(?:\x07|\x1b\\)"@,
            text,
            Seq::empty(),
        ) == Some(clean),
    ensures
        shown_lines(text) == lines_of(clean),
{
}

/// Each phrase with which a server tells of a throttle is seen as a throttle, wherever it stands on
/// the screen and whatever else is shown, unless a custom pattern matches too.
pub proof fn each_throttle_phrase_is_seen(text: Seq<char>, clean: Seq<char>, custom: Seq<Seq<char>>)
    requires
        regex_replace_all(
            r"\x1b\[[\x20-\x3f]*[\x40-\x7e]|\x1b\][\s\S]*?(?:\x07|\x1b\\)|\x1b[PX_^][\s\S]*?(?:\x07|\x1b\\)"@,
            text,
            Seq::empty(),
        ) == Some(clean),
        ({
            let full = joined(lines_of(clean), "\n"@);
            ||| regex_is_match(r"(?i)type\s*2b\s*rate\s*limit"@, full) == Some(true)
            ||| regex_is_match(r"(?i)temporarily limiting requests"@, full) == Some(true)
            ||| regex_is_match(r"(?i)server is temporarily"@, full) == Some(true)
            ||| regex_is_match(r"(?i)too many requests"@, full) == Some(true)
            ||| regex_is_match(r"(?i)429\s*(?:too many requests|rate limit)"@, full) == Some(true)
        }),
        forall|k: int|
            0 <= k < custom.len() ==> regex_is_match(
                #[trigger] custom[k],
                joined(lines_of(clean), "\n"@),
            ) != Some(true),
    ensures
        detection(text, custom) matches Some((kind, _)) && kind == RateLimitKind::ServerThrottle,
{
    cleaned(text, clean);
    phrases(joined(lines_of(clean), "\n"@), custom);
    standalone_pattern_is_throttle(text, custom);
}

/// Each phrase that says that a limit was hit is seen as an account limit with each phrase that
/// says when it resets, where the two stand at most six lines apart, unless a throttle is shown.
pub proof fn each_limit_phrase_is_seen(
    text: Seq<char>,
    clean: Seq<char>,
    custom: Seq<Seq<char>>,
    i: int,
    j: int,
)
    requires
        regex_replace_all(
            r"\x1b\[[\x20-\x3f]*[\x40-\x7e]|\x1b\][\s\S]*?(?:\x07|\x1b\\)|\x1b[PX_^][\s\S]*?(?:\x07|\x1b\\)"@,
            text,
            Seq::empty(),
        ) == Some(clean),
        0 <= i < lines_of(clean).len(),
        0 <= j < lines_of(clean).len(),
        -6 <= i - j <= 6,
        ({
            let line = lines_of(clean)[i];
            ||| regex_is_match(r"(?i)(?:hit|exceeded|reached|over)\s+(?:your|the)\s+(?:\d+-hour\s+)?(?:usage\s+|rate\s+)?limit"@, line) == Some(true)
            ||| regex_is_match(r"(?i)(?:usage|rate|request)?\s*limit\s+(?:reached|exceeded|hit)"@, line) == Some(true)
            ||| regex_is_match(r"(?i)(?:you've|you\s+have)\s+(?:hit|exceeded|reached)\s+(?:your|the)"@, line) == Some(true)
            ||| regex_is_match(r"(?i)out of\s+(?:usage|requests|quota|tokens)"@, line) == Some(true)
        }),
        ({
            let line = lines_of(clean)[j];
            ||| regex_is_match(r"(?i)resets?\s+(?:at\s+)?\d{1,2}(?::\d{2})?\s*(?:am|pm)?"@, line) == Some(true)
            ||| regex_is_match(r"(?i)resets?\s+(?:in\s+)?\d+\s*(?:hours?|minutes?|h|m)"@, line) == Some(true)
            ||| regex_is_match(r"(?i)try again in \d+\s*(?:hours?|minutes?|h|m)"@, line) == Some(true)
        }),
        !says_throttle(joined(lines_of(clean), "\n"@)),
    ensures
        detection(text, custom) matches Some((kind, _)) && kind == RateLimitKind::AccountLimit,
{
    let lines = lines_of(clean);
    let full = joined(lines, "\n"@);
    cleaned(text, clean);
    phrases(full, custom);
    phrases(lines[i], custom);
    phrases(lines[j], custom);
    if any_occurs(custom, full) {
        custom_pattern_wins(text, custom);
    } else {
        assert(limit_near_reset(shown_lines(text), i, j));
        account_limit_needs_both(text, custom);
    }
}

/// A custom pattern that matches the screen is seen as an account limit, whatever else is shown.
pub proof fn each_custom_pattern_is_seen(
    text: Seq<char>,
    clean: Seq<char>,
    custom: Seq<Seq<char>>,
    k: int,
)
    requires
        regex_replace_all(
            r"\x1b\[[\x20-\x3f]*[\x40-\x7e]|\x1b\][\s\S]*?(?:\x07|\x1b\\)|\x1b[PX_^][\s\S]*?(?:\x07|\x1b\\)"@,
            text,
            Seq::empty(),
        ) == Some(clean),
        0 <= k < custom.len(),
        regex_is_match(custom[k], joined(lines_of(clean), "\n"@)) == Some(true),
    ensures
        detection(text, custom) matches Some((kind, _)) && kind == RateLimitKind::AccountLimit,
{
    let full = joined(lines_of(clean), "\n"@);
    cleaned(text, clean);
    assert(occurs(custom[k], full));
    custom_pattern_wins(text, custom);
}

/// Nothing else is seen as a rate limit: without a custom pattern and a phrase of a server, no line
/// may say that a limit was hit within six lines of one that says when it resets.
pub proof fn nothing_else_is_seen(text: Seq<char>, clean: Seq<char>, custom: Seq<Seq<char>>)
    requires
        regex_replace_all(
            r"\x1b\[[\x20-\x3f]*[\x40-\x7e]|\x1b\][\s\S]*?(?:\x07|\x1b\\)|\x1b[PX_^][\s\S]*?(?:\x07|\x1b\\)"@,
            text,
            Seq::empty(),
        ) == Some(clean),
        !says_custom(custom, joined(lines_of(clean), "\n"@)),
        !says_throttle(joined(lines_of(clean), "\n"@)),
        forall|i: int, j: int|
            0 <= i < lines_of(clean).len() && 0 <= j < lines_of(clean).len() && -6 <= i - j <= 6
                ==> !(#[trigger] says_limit(lines_of(clean)[i]) && #[trigger] says_reset(
                lines_of(clean)[j],
            )),
    ensures
        detection(text, custom) is None,
{
    let lines = lines_of(clean);
    cleaned(text, clean);
    phrases(joined(lines, "\n"@), custom);
    account_limit_needs_both(text, custom);
    if exists|i: int, j: int| limit_near_reset(lines, i, j) {
        let (i, j) = choose|i: int, j: int| limit_near_reset(lines, i, j);
        phrases(lines[i], custom);
        phrases(lines[j], custom);
    }
}

/// The message of an account limit is the line that says when it resets: the first such line within
/// six lines of the first line that says that a limit was hit and has such a line near it.
pub proof fn limit_message_is_its_reset_line(
    text: Seq<char>,
    clean: Seq<char>,
    custom: Seq<Seq<char>>,
    i: int,
    j: int,
)
    requires
        regex_replace_all(
            r"\x1b\[[\x20-\x3f]*[\x40-\x7e]|\x1b\][\s\S]*?(?:\x07|\x1b\\)|\x1b[PX_^][\s\S]*?(?:\x07|\x1b\\)"@,
            text,
            Seq::empty(),
        ) == Some(clean),
        !says_custom(custom, joined(lines_of(clean), "\n"@)),
        !says_throttle(joined(lines_of(clean), "\n"@)),
        0 <= i < lines_of(clean).len(),
        0 <= j < lines_of(clean).len(),
        -6 <= i - j <= 6,
        says_limit(lines_of(clean)[i]),
        says_reset(lines_of(clean)[j]),
        forall|k: int|
            0 <= k < j && i - 6 <= k <= i + 6 ==> !says_reset(#[trigger] lines_of(clean)[k]),
        forall|a: int, b: int|
            0 <= a < i && 0 <= b < lines_of(clean).len() && -6 <= a - b <= 6 ==> !(
            #[trigger] says_limit(lines_of(clean)[a]) && #[trigger] says_reset(lines_of(clean)[b])),
    ensures
        detection(text, custom) == Some(
            (RateLimitKind::AccountLimit, Some(trimmed(lines_of(clean)[j]))),
        ),
{
    let lines = lines_of(clean);
    let full = joined(lines, "\n"@);
    cleaned(text, clean);
    phrases(full, custom);
    first_scan_finds(custom, full, lines);
    first_scan_finds(standalone_patterns(), full, lines);
    let limit = any_hits(limit_patterns(), lines);
    let reset = any_hits(reset_patterns(), lines);
    assert forall|k: int| 0 <= k < lines.len() implies limit[k] == says_limit(lines[k]) && reset[k]
        == says_reset(lines[k]) by {
        phrases(lines[k], custom);
    }
    assert(in_window(reset, i, j) && reset[j]);
    assert(near_reset(limit, reset, i));
    assert forall|k: int| k < i implies !#[trigger] near_reset(limit, reset, k) by {
        if near_reset(limit, reset, k) {
            let b = choose|b: int| in_window(reset, k, b) && #[trigger] reset[b];
            assert(says_limit(lines[k]) && says_reset(lines[b]));
        }
    }
    assert(reports(limit, reset, i, j));
    reports_once(limit, reset, i, j);
}

proof fn first_flag(lines: Seq<Seq<char>>, pattern: Seq<char>, n: int)
    requires
        0 <= n < lines.len(),
        regex_is_match(pattern, lines[n]) == Some(true),
        forall|k: int|
            0 <= k < n ==> regex_is_match(pattern, #[trigger] lines[k]) != Some(true),
    ensures
        first_flagged(lines, hits(pattern, lines)) == Some(trimmed(lines[n])),
{
    let flags = hits(pattern, lines);
    flags.index_of_first_ensures(true);
    assert(flags[n]);
    assert(flags.contains(true));
    let first = flags.index_of_first(true)->0;
    assert(flags[first]);
    if first < n {
        assert(regex_is_match(pattern, lines[first]) == Some(true));
    }
}

/// The message of a custom pattern is the first line that it matches: of the first pattern that
/// matches the screen, in the order in which they are given.
pub proof fn custom_message_is_its_line(
    text: Seq<char>,
    clean: Seq<char>,
    custom: Seq<Seq<char>>,
    k: int,
    n: int,
)
    requires
        regex_replace_all(
            r"\x1b\[[\x20-\x3f]*[\x40-\x7e]|\x1b\][\s\S]*?(?:\x07|\x1b\\)|\x1b[PX_^][\s\S]*?(?:\x07|\x1b\\)"@,
            text,
            Seq::empty(),
        ) == Some(clean),
        0 <= k < custom.len(),
        regex_is_match(custom[k], joined(lines_of(clean), "\n"@)) == Some(true),
        forall|m: int|
            0 <= m < k ==> regex_is_match(#[trigger] custom[m], joined(lines_of(clean), "\n"@))
                != Some(true),
        0 <= n < lines_of(clean).len(),
        regex_is_match(custom[k], lines_of(clean)[n]) == Some(true),
        forall|m: int|
            0 <= m < n ==> regex_is_match(custom[k], #[trigger] lines_of(clean)[m]) != Some(true),
    ensures
        detection(text, custom) == Some(
            (RateLimitKind::AccountLimit, Some(trimmed(lines_of(clean)[n]))),
        ),
{
    let lines = lines_of(clean);
    let full = joined(lines, "\n"@);
    cleaned(text, clean);
    scan_at(custom, full, lines, k);
    first_flag(lines, custom[k], n);
}

proof fn scan_at(patterns: Seq<Seq<char>>, full: Seq<char>, lines: Seq<Seq<char>>, k: int)
    requires
        0 <= k < patterns.len(),
        regex_is_match(patterns[k], full) == Some(true),
        forall|m: int|
            0 <= m < k ==> regex_is_match(#[trigger] patterns[m], full) != Some(true),
    ensures
        first_scan(patterns, full, lines) == Some(hits(patterns[k], lines)),
    decreases k,
{
    if k > 0 {
        assert(regex_is_match(patterns[0], full) != Some(true));
        let rest = patterns.skip(1);
        assert forall|m: int| 0 <= m < k - 1 implies regex_is_match(#[trigger] rest[m], full)
            != Some(true) by {
            assert(rest[m] == patterns[m + 1]);
        }
        scan_at(rest, full, lines, k - 1);
    }
}

/// The message of a throttle is a line that holds a phrase of a server: of the first phrase on the
/// screen, in the order of the list, the first line that holds it.
pub proof fn throttle_message_is_its_line(
    text: Seq<char>,
    clean: Seq<char>,
    custom: Seq<Seq<char>>,
    k: int,
    n: int,
)
    requires
        regex_replace_all(
            r"\x1b\[[\x20-\x3f]*[\x40-\x7e]|\x1b\][\s\S]*?(?:\x07|\x1b\\)|\x1b[PX_^][\s\S]*?(?:\x07|\x1b\\)"@,
            text,
            Seq::empty(),
        ) == Some(clean),
        !says_custom(custom, joined(lines_of(clean), "\n"@)),
        0 <= k < 5,
        0 <= n < lines_of(clean).len(),
        ({
            let phrases = seq![
                r"(?i)type\s*2b\s*rate\s*limit"@,
                r"(?i)temporarily limiting requests"@,
                r"(?i)server is temporarily"@,
                r"(?i)too many requests"@,
                r"(?i)429\s*(?:too many requests|rate limit)"@,
            ];
            let full = joined(lines_of(clean), "\n"@);
            let lines = lines_of(clean);
            &&& regex_is_match(phrases[k], full) == Some(true)
            &&& forall|m: int|
                0 <= m < k ==> regex_is_match(#[trigger] phrases[m], full) != Some(true)
            &&& regex_is_match(phrases[k], lines[n]) == Some(true)
            &&& forall|m: int|
                0 <= m < n ==> regex_is_match(phrases[k], #[trigger] lines[m]) != Some(true)
        }),
    ensures
        detection(text, custom) == Some(
            (RateLimitKind::ServerThrottle, Some(trimmed(lines_of(clean)[n]))),
        ),
{
    let lines = lines_of(clean);
    let full = joined(lines, "\n"@);
    cleaned(text, clean);
    phrases(full, custom);
    first_scan_finds(custom, full, lines);
    scan_at(standalone_patterns(), full, lines, k);
    first_flag(lines, standalone_patterns()[k], n);
}

/// A custom pattern that matches the screen as a whole but no line of it gives no message.
pub proof fn pattern_across_lines_has_no_message(
    text: Seq<char>,
    clean: Seq<char>,
    custom: Seq<Seq<char>>,
    k: int,
)
    requires
        regex_replace_all(
            r"\x1b\[[\x20-\x3f]*[\x40-\x7e]|\x1b\][\s\S]*?(?:\x07|\x1b\\)|\x1b[PX_^][\s\S]*?(?:\x07|\x1b\\)"@,
            text,
            Seq::empty(),
        ) == Some(clean),
        0 <= k < custom.len(),
        regex_is_match(custom[k], joined(lines_of(clean), "\n"@)) == Some(true),
        forall|m: int|
            0 <= m < k ==> regex_is_match(#[trigger] custom[m], joined(lines_of(clean), "\n"@))
                != Some(true),
        forall|m: int|
            0 <= m < lines_of(clean).len() ==> regex_is_match(
                custom[k],
                #[trigger] lines_of(clean)[m],
            ) != Some(true),
    ensures
        detection(text, custom) == Some((RateLimitKind::AccountLimit, None::<Seq<char>>)),
{
    let lines = lines_of(clean);
    let full = joined(lines, "\n"@);
    cleaned(text, clean);
    scan_at(custom, full, lines, k);
    let flags = hits(custom[k], lines);
    flags.index_of_first_ensures(true);
    assert forall|m: int| 0 <= m < flags.len() implies !flags[m] by {
        assert(regex_is_match(custom[k], lines[m]) != Some(true));
    }
}

/// Escape sequences are replaced by nothing.
pub proof fn escape_sequences_are_dropped(text: Seq<char>, clean: Seq<char>)
    requires
        regex_replace_all(
            r"\x1b\[[\x20-\x3f]*[\x40-\x7e]|\x1b\][\s\S]*?(?:\x07|\x1b\\)|\x1b[PX_^][\s\S]*?(?:\x07|\x1b\\)"@,
            text,
            Seq::empty(),
        ) == Some(clean),
    ensures
        stripped(text) == clean,
        shown_lines(text) == lines_of(clean),
{
}

} // verus!

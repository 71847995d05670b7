//! The settings of the wrapper.

use vstd::arithmetic::power2::{lemma_pow2_unfold, pow2};
use vstd::prelude::*;

use crate::regexp::{regex_rejection, Pattern};

verus! {

/// The settings, each of which has a default.
#[derive(Debug)]
pub struct Config {
    /// Max retry attempts before giving up
    pub max_retries: u32,
    /// How often to poll the tmux pane (seconds)
    pub poll_interval_secs: u64,
    /// Extra wait after parsed reset time (seconds)
    pub margin_secs: u64,
    /// Fallback wait when reset time is unparseable (seconds)
    pub fallback_wait_secs: u64,
    /// Message to send on retry
    pub retry_message: String,
    /// Base backoff for server throttles (seconds), which doubles on each retry
    pub throttle_base_secs: u64,
    /// Max backoff cap for server throttles (seconds)
    pub throttle_max_secs: u64,
    /// Extra regex patterns (case-insensitive) that count as rate limits
    pub custom_patterns: Vec<String>,
}

impl Default for Config {
    fn default() -> (r: Self)
        ensures
            r.max_retries == 10,
            r.poll_interval_secs == 5,
            r.margin_secs == 60,
            r.fallback_wait_secs == 300,
            r.retry_message@ == "continue"@,
            r.throttle_base_secs == 30,
            r.throttle_max_secs == 600,
            r.custom_patterns@.len() == 0,
    {
        Config {
            max_retries: 10,
            poll_interval_secs: 5,
            margin_secs: 60,
            fallback_wait_secs: 300,
            retry_message: "continue".to_owned(),
            throttle_base_secs: 30,
            throttle_max_secs: 600,
            custom_patterns: Vec::new(),
        }
    }
}

/// The smaller of two numbers.
pub open spec fn least(a: nat, b: nat) -> nat {
    if a <= b {
        a
    } else {
        b
    }
}

/// The exponent of the backoff before an attempt: one less than its number.
pub open spec fn doublings(attempt: nat) -> nat {
    if attempt == 0 {
        0
    } else {
        (attempt - 1) as nat
    }
}

/// The backoff before an attempt: `base` doubled for each attempt but the first, at most `max`.
pub open spec fn backoff(base: nat, max: nat, attempt: nat) -> nat {
    least(base * pow2(doublings(attempt)), max)
}

/// A custom pattern as it is compiled: matched without regard to case.
pub open spec fn caseless(pattern: Seq<char>) -> Seq<char> {
    "(?i)"@ + pattern
}

/// The custom patterns that compile, in their order.
pub open spec fn compiled(patterns: Seq<Seq<char>>) -> Seq<Seq<char>>
    decreases patterns.len(),
{
    if patterns.len() == 0 {
        Seq::empty()
    } else {
        let before = compiled(patterns.drop_last());
        match regex_rejection(caseless(patterns.last())) {
            None => before.push(caseless(patterns.last())),
            Some(_) => before,
        }
    }
}

/// What is reported of a custom pattern that does not compile.
pub open spec fn skip_notice(pattern: Seq<char>, reason: Seq<char>) -> Seq<char> {
    "[sigue] Skipping bad custom pattern '"@ + pattern + "': "@ + reason
}

/// The reports on the custom patterns that do not compile, in their order.
pub open spec fn skipped(patterns: Seq<Seq<char>>) -> Seq<Seq<char>>
    decreases patterns.len(),
{
    if patterns.len() == 0 {
        Seq::empty()
    } else {
        let before = skipped(patterns.drop_last());
        match regex_rejection(caseless(patterns.last())) {
            None => before,
            Some(reason) => before.push(skip_notice(patterns.last(), reason)),
        }
    }
}

/// A longer wait stays a longer wait however often both are doubled.
proof fn more_doublings(base: nat, fewer: nat, more: nat)
    requires
        fewer <= more,
    ensures
        base * pow2(fewer) <= base * pow2(more),
{
    broadcast use vstd::arithmetic::power2::lemma_pow2_strictly_increases;

    let a = pow2(fewer);
    let b = pow2(more);
    assert(a <= b);
    assert(base * a <= base * b) by (nonlinear_arith)
        requires
            a <= b,
    ;
}

/// The first attempt waits for the base, and each further one twice as long as the one before
/// it, until the cap is reached, which no wait exceeds.
pub proof fn backoff_doubles(base: nat, max: nat, attempt: nat)
    ensures
        backoff(base, max, 1) == if base <= max {
            base
        } else {
            max
        },
        attempt >= 1 ==> backoff(base, max, attempt + 1) == if 2 * backoff(base, max, attempt)
            <= max {
            2 * backoff(base, max, attempt)
        } else {
            max
        },
        backoff(base, max, attempt) <= max,
        backoff(base, max, 0) == backoff(base, max, 1),
{
    vstd::arithmetic::power2::lemma2_to64();
    assert(base * 1 == base);
    if attempt >= 1 {
        let p = pow2((attempt - 1) as nat);
        lemma_pow2_unfold(attempt);
        assert(base * (2 * p) == 2 * (base * p)) by (nonlinear_arith);
    }
}

/// A later attempt never waits for less.
pub proof fn backoff_grows(base: nat, max: nat, earlier: nat, later: nat)
    requires
        earlier <= later,
    ensures
        backoff(base, max, earlier) <= backoff(base, max, later),
{
    more_doublings(base, doublings(earlier), doublings(later));
}

impl Config {
    /// Calculates the backoff for server throttles: base * 2^(attempt-1), capped.
    pub fn throttle_backoff(&self, attempt: u32) -> (r: u64)
        ensures
            r == backoff(
                self.throttle_base_secs as nat,
                self.throttle_max_secs as nat,
                attempt as nat,
            ),
    {
        let base: u64 = self.throttle_base_secs;
        let max: u64 = self.throttle_max_secs;
        let mut wait: u64 = base;
        if base == 0 {
            assert(0 * pow2(doublings(attempt as nat)) == 0);
            return 0;
        }
        let times: u32 = if attempt == 0 {
            0
        } else {
            attempt - 1
        };
        let mut done: u32 = 0;
        proof {
            vstd::arithmetic::power2::lemma2_to64();
        }
        while done < times
            invariant
                done <= times == doublings(attempt as nat),
                base == self.throttle_base_secs,
                max == self.throttle_max_secs,
                wait == base * pow2(done as nat),
                base > 0,
            decreases times - done,
        {
            if wait > max / 2 {
                proof {
                    lemma_pow2_unfold((done + 1) as nat);
                    assert(base * (2 * pow2(done as nat)) == 2 * (base * pow2(done as nat)))
                        by (nonlinear_arith);
                    more_doublings(base as nat, (done + 1) as nat, times as nat);
                }
                return max;
            }
            proof {
                lemma_pow2_unfold((done + 1) as nat);
                assert(base * (2 * pow2(done as nat)) == 2 * (base * pow2(done as nat)))
                    by (nonlinear_arith);
            }
            wait = wait * 2;
            done += 1;
        }
        if wait <= max {
            wait
        } else {
            max
        }
    }

    /// Selects the custom patterns that compile. Bad patterns are skipped: a typo is no reason to
    /// stop watching.
    pub fn compile_custom_patterns(&self) -> (r: Vec<Pattern>)
        ensures
            r.deep_view() == compiled(self.custom_patterns.deep_view()),
    {
        let mut out: Vec<Pattern> = Vec::new();
        let ghost all = self.custom_patterns.deep_view();
        let mut i: usize = 0;
        assert(out.deep_view() =~= compiled(all.take(0)));
        while i < self.custom_patterns.len()
            invariant
                i <= self.custom_patterns@.len(),
                all == self.custom_patterns.deep_view(),
                out.deep_view() == compiled(all.take(i as int)),
            decreases self.custom_patterns@.len() - i,
        {
            assert(all.take(i + 1).drop_last() == all.take(i as int));
            let ghost before = out.deep_view();
            let source = "(?i)".to_owned().concat(self.custom_patterns[i].as_str());
            if let Ok(pattern) = Pattern::new(source.as_str()) {
                out.push(pattern);
                assert(out.deep_view() =~= before.push(source@));
            }
            i += 1;
        }
        assert(all.take(all.len() as int) == all);
        out
    }

    /// Reports on the custom patterns that are skipped, with the reason.
    pub fn skipped_patterns(&self) -> (r: Vec<String>)
        ensures
            r.deep_view() == skipped(self.custom_patterns.deep_view()),
    {
        let mut out: Vec<String> = Vec::new();
        let ghost all = self.custom_patterns.deep_view();
        let mut i: usize = 0;
        assert(out.deep_view() =~= skipped(all.take(0)));
        while i < self.custom_patterns.len()
            invariant
                i <= self.custom_patterns@.len(),
                all == self.custom_patterns.deep_view(),
                out.deep_view() == skipped(all.take(i as int)),
            decreases self.custom_patterns@.len() - i,
        {
            assert(all.take(i + 1).drop_last() == all.take(i as int));
            let ghost before = out.deep_view();
            let pattern = self.custom_patterns[i].as_str();
            let source = "(?i)".to_owned().concat(pattern);
            if let Err(reason) = Pattern::new(source.as_str()) {
                let notice = "[sigue] Skipping bad custom pattern '".to_owned().concat(
                    pattern,
                ).concat("': ").concat(reason.as_str());
                let ghost text = notice@;
                out.push(notice);
                assert(out.deep_view() =~= before.push(text));
            }
            i += 1;
        }
        assert(all.take(all.len() as int) == all);
        out
    }
}

/// Every custom pattern is either compiled or reported as skipped.
pub proof fn compiled_or_skipped(patterns: Seq<Seq<char>>)
    ensures
        compiled(patterns).len() + skipped(patterns).len() == patterns.len(),
        forall|i: int|
            0 <= i < compiled(patterns).len() ==> regex_rejection(
                #[trigger] compiled(patterns)[i],
            ) is None,
    decreases patterns.len(),
{
    if patterns.len() > 0 {
        compiled_or_skipped(patterns.drop_last());
    }
}

/// A further custom pattern is kept as it stands, to be matched without regard to case, where it
/// compiles so, and is else reported with the reason. What came before it stays.
pub proof fn custom_patterns_in_order(patterns: Seq<Seq<char>>, pattern: Seq<char>)
    ensures
        compiled(Seq::empty()) == Seq::<Seq<char>>::empty(),
        skipped(Seq::empty()) == Seq::<Seq<char>>::empty(),
        match regex_rejection("(?i)"@ + pattern) {
            None => {
                &&& compiled(patterns.push(pattern)) == compiled(patterns).push("(?i)"@ + pattern)
                &&& skipped(patterns.push(pattern)) == skipped(patterns)
            },
            Some(reason) => {
                &&& compiled(patterns.push(pattern)) == compiled(patterns)
                &&& skipped(patterns.push(pattern)) == skipped(patterns).push(
                    "[sigue] Skipping bad custom pattern '"@ + pattern + "': "@ + reason,
                )
            },
        },
{
    assert(patterns.push(pattern).drop_last() =~= patterns);
}

} // verus!

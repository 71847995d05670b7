//! Regular expressions as source texts, matched by the `regex` crate.
//!
//! A pattern is compiled where it is used: what a compiled `Regex` holds is opaque to the
//! verifier, while the source text it was compiled from is not.

use regex::Regex;
use vstd::prelude::*;

verus! {

/// The message with which `Regex::new` rejects a pattern, or nothing where it accepts it.
pub uninterp spec fn regex_rejection(pattern: Seq<char>) -> Option<Seq<char>>;

/// What `Regex::is_match` answers for a pattern and a text; nothing for a rejected pattern.
pub uninterp spec fn regex_is_match(pattern: Seq<char>, text: Seq<char>) -> Option<bool>;

/// The text of a capture group in the first match that `Regex::captures` finds; nothing where
/// there is no match, where the group took no part in it, and for a rejected pattern.
pub uninterp spec fn regex_group(
    pattern: Seq<char>,
    text: Seq<char>,
    group: nat,
) -> Option<Seq<char>>;

/// The text that `Regex::replace_all` makes; nothing for a rejected pattern.
pub uninterp spec fn regex_replace_all(
    pattern: Seq<char>,
    text: Seq<char>,
    replacement: Seq<char>,
) -> Option<Seq<char>>;

/// Trusted: `Regex::new`. Whether a pattern is rejected, and with which message, depends on its
/// source text alone.
#[verifier::external_body]
pub(crate) fn rejection(pattern: &str) -> (r: Option<String>)
    ensures
        r.deep_view() == regex_rejection(pattern@),
{
    match Regex::new(pattern) {
        Ok(_) => None,
        Err(e) => Some(e.to_string()),
    }
}

/// Trusted: `Regex::is_match`, on the pattern as `Regex::new` compiles it. The answer depends on
/// the source text of the pattern and on the text alone, and there is one exactly where the
/// pattern is not rejected.
#[verifier::external_body]
pub(crate) fn is_match(pattern: &str, text: &str) -> (r: Option<bool>)
    ensures
        r == regex_is_match(pattern@, text@),
        r is Some <==> regex_rejection(pattern@) is None,
{
    Some(Regex::new(pattern).ok()?.is_match(text))
}

/// Trusted: `Regex::captures` and `Captures::get`, on the pattern as `Regex::new` compiles it.
/// The text of the group depends on the source text of the pattern, on the text and on the group
/// alone.
#[verifier::external_body]
pub(crate) fn capture(pattern: &str, text: &str, group: usize) -> (r: Option<String>)
    ensures
        r.deep_view() == regex_group(pattern@, text@, group as nat),
{
    Some(Regex::new(pattern).ok()?.captures(text)?.get(group)?.as_str().to_string())
}

/// Trusted: `Regex::replace_all`, on the pattern as `Regex::new` compiles it. The new text
/// depends on the source text of the pattern, on the text and on the replacement alone, and
/// there is one exactly where the pattern is not rejected.
#[verifier::external_body]
pub(crate) fn replace_all(pattern: &str, text: &str, replacement: &str) -> (r: Option<String>)
    ensures
        r.deep_view() == regex_replace_all(pattern@, text@, replacement@),
        r is Some <==> regex_rejection(pattern@) is None,
{
    Some(Regex::new(pattern).ok()?.replace_all(text, replacement).into_owned())
}

/// A regular expression, by its source text.
#[derive(Debug)]
pub struct Pattern {
    source: String,
}

impl View for Pattern {
    type V = Seq<char>;

    /// The source text.
    closed spec fn view(&self) -> Seq<char> {
        self.source@
    }
}

impl DeepView for Pattern {
    type V = Seq<char>;

    open spec fn deep_view(&self) -> Seq<char> {
        self@
    }
}

/// Whether `pattern` is found somewhere in `text`. A rejected pattern is found nowhere.
pub open spec fn occurs(pattern: Seq<char>, text: Seq<char>) -> bool {
    regex_is_match(pattern, text) == Some(true)
}

/// Looks for a pattern, given by its source text, in `text`.
pub fn found(pattern: &str, text: &str) -> (r: bool)
    ensures
        r == occurs(pattern@, text@),
{
    match is_match(pattern, text) {
        Some(answer) => answer,
        None => false,
    }
}

impl Pattern {
    /// A pattern always compiles.
    #[verifier::type_invariant]
    closed spec fn compiles(self) -> bool {
        regex_rejection(self.source@) is None
    }

    /// The pattern with the given source text, or the message with which it is rejected.
    pub fn new(source: &str) -> (r: Result<Pattern, String>)
        ensures
            match (r, regex_rejection(source@)) {
                (Ok(pattern), None) => pattern@ == source@,
                (Err(message), Some(reason)) => message@ == reason,
                _ => false,
            },
    {
        match rejection(source) {
            None => Ok(Pattern { source: source.to_owned() }),
            Some(message) => Err(message),
        }
    }

    /// The source text of the pattern.
    pub fn as_str(&self) -> (r: &str)
        ensures
            r@ == self@,
    {
        self.source.as_str()
    }

    /// Looks for the pattern in `text`.
    pub fn occurs_in(&self, text: &str) -> (r: bool)
        ensures
            r == occurs(self@, text@),
    {
        found(self.source.as_str(), text)
    }
}

} // verus!

//! Strings as sequences of characters: splitting, trimming and joining.

use vstd::prelude::*;
use vstd::utf8::{decode_utf8, is_ascii_chars, valid_utf8};

verus! {

/// Trusted: `String::push` appends one character to the end of the string.
pub assume_specification[ String::push ](s: &mut String, c: char)
    ensures
        final(s)@ == old(s)@.push(c),
;

/// The characters with the Unicode property `White_Space`.
pub open spec fn white_space(c: char) -> bool {
    ||| '\u{9}' <= c <= '\u{d}'
    ||| c == ' '
    ||| c == '\u{85}'
    ||| c == '\u{a0}'
    ||| c == '\u{1680}'
    ||| '\u{2000}' <= c <= '\u{200a}'
    ||| c == '\u{2028}'
    ||| c == '\u{2029}'
    ||| c == '\u{202f}'
    ||| c == '\u{205f}'
    ||| c == '\u{3000}'
}

/// Trusted: `char::is_whitespace` tells whether a character has the Unicode property
/// `White_Space`.
pub assume_specification[ char::is_whitespace ](c: char) -> (r: bool)
    ensures
        r == white_space(c),
;

/// A text in lower case, as `str::to_lowercase` makes it.
pub uninterp spec fn lowercased(s: Seq<char>) -> Seq<char>;

/// A text in upper case, as `str::to_uppercase` makes it.
pub uninterp spec fn uppercased(s: Seq<char>) -> Seq<char>;

/// An ASCII letter in lower case; any other character as it is.
pub open spec fn ascii_lower(c: char) -> char {
    if 'A' <= c <= 'Z' {
        (c as u32 + 32) as char
    } else {
        c
    }
}

/// An ASCII letter in upper case; any other character as it is.
pub open spec fn ascii_upper(c: char) -> char {
    if 'a' <= c <= 'z' {
        (c as u32 - 32) as char
    } else {
        c
    }
}

/// Trusted: `str::to_lowercase`. The new text depends on the old one alone, and in an ASCII text
/// exactly the capital letters change, each to its small letter.
#[verifier::external_body]
pub(crate) fn to_lowercase(s: &str) -> (r: String)
    ensures
        r@ == lowercased(s@),
        is_ascii_chars(s@) ==> r@ == s@.map_values(|c: char| ascii_lower(c)),
{
    s.to_lowercase()
}

/// Trusted: `str::to_uppercase`. The new text depends on the old one alone, and in an ASCII text
/// exactly the small letters change, each to its capital letter.
#[verifier::external_body]
pub(crate) fn to_uppercase(s: &str) -> (r: String)
    ensures
        r@ == uppercased(s@),
        is_ascii_chars(s@) ==> r@ == s@.map_values(|c: char| ascii_upper(c)),
{
    s.to_uppercase()
}

/// A text read from bytes, as `String::from_utf8_lossy` reads it.
pub uninterp spec fn decoded(bytes: Seq<u8>) -> Seq<char>;

/// Trusted: `String::from_utf8_lossy`. The text depends on the bytes alone, and valid UTF-8 is
/// decoded.
#[verifier::external_body]
pub(crate) fn decode(bytes: &Vec<u8>) -> (r: String)
    ensures
        r@ == decoded(bytes@),
        valid_utf8(bytes@) ==> r@ == decode_utf8(bytes@),
{
    String::from_utf8_lossy(bytes).into_owned()
}

/// The characters of a string, one by one.
pub fn chars_of(s: &str) -> (r: Vec<char>)
    ensures
        r@ == s@,
{
    let mut out: Vec<char> = Vec::new();
    for c in it: s.chars()
        invariant
            out@ == s@.take(it.index()),
            it.seq() == s@,
    {
        assert(s@.take(it.index() + 1) == s@.take(it.index()).push(s@[it.index()]));
        out.push(c);
    }
    assert(s@.take(s@.len() as int) == s@);
    out
}

/// The string made of the characters `chars[from..to]`.
pub fn string_of(chars: &Vec<char>, from: usize, to: usize) -> (r: String)
    requires
        from <= to <= chars@.len(),
    ensures
        r@ == chars@.subrange(from as int, to as int),
{
    let mut out = String::new();
    let mut i: usize = from;
    while i < to
        invariant
            from <= i <= to <= chars@.len(),
            out@ == chars@.subrange(from as int, i as int),
        decreases to - i,
    {
        out.push(chars[i]);
        i += 1;
        assert(out@ == chars@.subrange(from as int, i as int));
    }
    out
}

/// A text whose first letter is a capital, where it is an ASCII letter.
pub open spec fn capitalized(s: Seq<char>) -> Seq<char> {
    if s.len() == 0 {
        s
    } else {
        seq![ascii_upper(s[0])] + s.skip(1)
    }
}

/// Makes the first letter of a text a capital, where it is an ASCII letter.
pub fn capitalize(s: &str) -> (r: String)
    ensures
        r@ == capitalized(s@),
{
    let chars = chars_of(s);
    if chars.len() == 0 {
        return s.to_owned();
    }
    let first = chars[0];
    let mut out = String::new();
    out.push(
        if 'a' <= first && first <= 'z' {
            (first as u8 - 32) as char
        } else {
            first
        },
    );
    let rest = string_of(&chars, 1, chars.len());
    assert(rest@ =~= s@.skip(1));
    let r = out.concat(rest.as_str());
    assert(r@ =~= capitalized(s@));
    r
}

/// Whether two strings hold the same characters.
pub fn same(a: &str, b: &str) -> (r: bool)
    ensures
        r == (a@ == b@),
{
    a.to_owned() == b.to_owned()
}

/// Whether `prefix` is the beginning of `s`.
pub open spec fn begins_with(s: Seq<char>, prefix: Seq<char>) -> bool {
    prefix.len() <= s.len() && s.take(prefix.len() as int) == prefix
}

/// Tells whether `s` begins with `prefix`.
pub fn starts_with(s: &str, prefix: &str) -> (r: bool)
    ensures
        r == begins_with(s@, prefix@),
{
    let all = chars_of(s);
    let head = chars_of(prefix);
    if head.len() > all.len() {
        return false;
    }
    let mut i: usize = 0;
    while i < head.len()
        invariant
            i <= head@.len() <= all@.len(),
            all@.take(i as int) == head@.take(i as int),
            all@ == s@,
            head@ == prefix@,
        decreases head@.len() - i,
    {
        if all[i] != head[i] {
            assert(s@.take(prefix@.len() as int)[i as int] != prefix@[i as int]);
            return false;
        }
        assert(all@.take(i + 1) == all@.take(i as int).push(all@[i as int]));
        assert(head@.take(i + 1) == head@.take(i as int).push(head@[i as int]));
        i += 1;
    }
    assert(head@.take(head@.len() as int) == head@);
    true
}

/// The number of characters before the first line feed, or all of them where there is none.
pub open spec fn line_end(s: Seq<char>) -> nat
    decreases s.len(),
{
    if s.len() == 0 || s[0] == '\n' {
        0
    } else {
        1 + line_end(s.skip(1))
    }
}

/// A line without the carriage return that belongs to its line ending.
pub open spec fn without_return(line: Seq<char>) -> Seq<char> {
    if line.len() > 0 && line.last() == '\r' {
        line.drop_last()
    } else {
        line
    }
}

/// The lines of a text. A line ends with `\n` or `\r\n`, which is not part of it; the ending of
/// the last line is optional.
pub open spec fn lines_of(s: Seq<char>) -> Seq<Seq<char>>
    decreases s.len(),
{
    if s.len() == 0 {
        Seq::empty()
    } else if line_end(s) >= s.len() {
        seq![s]
    } else {
        seq![without_return(s.take(line_end(s) as int))] + lines_of(
            s.skip(line_end(s) as int + 1),
        )
    }
}

/// `line_end` is the position of the first line feed.
pub proof fn line_end_is_first(s: Seq<char>, n: nat)
    requires
        n <= s.len(),
        forall|j: int| 0 <= j < n ==> s[j] != '\n',
        n < s.len() ==> s[n as int] == '\n',
    ensures
        line_end(s) == n,
    decreases s.len(),
{
    if n > 0 {
        line_end_is_first(s.skip(1), (n - 1) as nat);
    }
}

/// Splits a text into its lines.
pub fn lines(s: &str) -> (r: Vec<String>)
    ensures
        r.deep_view() == lines_of(s@),
{
    let all = chars_of(s);
    let mut out: Vec<String> = Vec::new();
    let mut start: usize = 0;
    let mut i: usize = 0;
    assert(all@.skip(0) == all@);
    assert(out.deep_view() + lines_of(all@.skip(0)) == lines_of(all@));
    while i < all.len()
        invariant
            start <= i <= all@.len(),
            forall|j: int| start <= j < i ==> all@[j] != '\n',
            out.deep_view() + lines_of(all@.skip(start as int)) == lines_of(all@),
        decreases all@.len() - i,
    {
        if all[i] == '\n' {
            let ghost rest = all@.skip(start as int);
            let ghost before = out.deep_view();
            proof {
                line_end_is_first(rest, (i - start) as nat);
                assert(rest.take(i - start) == all@.subrange(start as int, i as int));
                assert(rest.skip(i - start + 1) == all@.skip(i + 1));
            }
            let mut end: usize = i;
            if end > start && all[end - 1] == '\r' {
                end -= 1;
            }
            assert(all@.subrange(start as int, end as int) == without_return(
                rest.take(i - start),
            ));
            let line = string_of(&all, start, end);
            let ghost text = line@;
            out.push(line);
            assert(out.deep_view() == before.push(text));
            assert(before.push(text) + lines_of(all@.skip(i + 1)) == before + (seq![text]
                + lines_of(all@.skip(i + 1))));
            start = i + 1;
        }
        i += 1;
    }
    let ghost rest = all@.skip(start as int);
    proof {
        line_end_is_first(rest, rest.len());
    }
    if start < all.len() {
        let ghost before = out.deep_view();
        let line = string_of(&all, start, all.len());
        assert(line@ == rest);
        out.push(line);
        assert(out.deep_view() == before.push(rest));
        assert(before.push(rest) == before + seq![rest]);
    } else {
        assert(out.deep_view() + Seq::<Seq<char>>::empty() == out.deep_view());
    }
    out
}

/// `s` without its leading white space.
pub open spec fn trimmed_start(s: Seq<char>) -> Seq<char>
    decreases s.len(),
{
    if s.len() > 0 && white_space(s[0]) {
        trimmed_start(s.skip(1))
    } else {
        s
    }
}

/// `s` without its trailing white space.
pub open spec fn trimmed_end(s: Seq<char>) -> Seq<char>
    decreases s.len(),
{
    if s.len() > 0 && white_space(s.last()) {
        trimmed_end(s.drop_last())
    } else {
        s
    }
}

/// `s` without its leading and its trailing white space.
pub open spec fn trimmed(s: Seq<char>) -> Seq<char> {
    trimmed_end(trimmed_start(s))
}

/// Removes the white space at both ends of a string.
pub fn trim(s: &str) -> (r: String)
    ensures
        r@ == trimmed(s@),
{
    let all = chars_of(s);
    let mut from: usize = 0;
    assert(all@.skip(0) == all@);
    while from < all.len() && all[from].is_whitespace()
        invariant
            from <= all@.len(),
            trimmed_start(all@.skip(from as int)) == trimmed_start(all@),
        decreases all@.len() - from,
    {
        assert(all@.skip(from as int).skip(1) == all@.skip(from + 1));
        from += 1;
    }
    let mut to: usize = all.len();
    assert(all@.subrange(from as int, to as int) == trimmed_start(all@)) by {
        assert(all@.subrange(from as int, to as int) == all@.skip(from as int));
    }
    while to > from && all[to - 1].is_whitespace()
        invariant
            from <= to <= all@.len(),
            trimmed_end(all@.subrange(from as int, to as int)) == trimmed(all@),
        decreases to,
    {
        assert(all@.subrange(from as int, to as int).drop_last() == all@.subrange(
            from as int,
            to - 1,
        ));
        to -= 1;
    }
    string_of(&all, from, to)
}

/// The parts one after another, with `separator` between two of them.
pub open spec fn joined(parts: Seq<Seq<char>>, separator: Seq<char>) -> Seq<char>
    decreases parts.len(),
{
    if parts.len() == 0 {
        Seq::empty()
    } else if parts.len() == 1 {
        parts[0]
    } else {
        joined(parts.drop_last(), separator) + separator + parts.last()
    }
}

/// Joins the parts with `separator` between two of them.
pub fn join(parts: &Vec<String>, separator: &str) -> (r: String)
    ensures
        r@ == joined(parts.deep_view(), separator@),
{
    let mut out = String::new();
    let ghost all = parts.deep_view();
    let mut i: usize = 0;
    while i < parts.len()
        invariant
            i <= parts@.len(),
            all == parts.deep_view(),
            out@ == joined(all.take(i as int), separator@),
        decreases parts@.len() - i,
    {
        assert(all.take(i + 1).drop_last() == all.take(i as int));
        if i > 0 {
            out.append(separator);
        }
        out.append(parts[i].as_str());
        assert(out@ == joined(all.take(i + 1), separator@));
        i += 1;
    }
    assert(all.take(all.len() as int) == all);
    out
}

/// A text begins with a prefix exactly where it is the prefix and something behind it.
pub proof fn prefix_and_rest(s: Seq<char>, prefix: Seq<char>, rest: Seq<char>)
    ensures
        begins_with(prefix + rest, prefix),
        begins_with(s, prefix) <==> exists|tail: Seq<char>| s == #[trigger] (prefix + tail),
{
    assert((prefix + rest).take(prefix.len() as int) =~= prefix);
    if begins_with(s, prefix) {
        assert(s =~= prefix + s.skip(prefix.len() as int));
    }
    if exists|tail: Seq<char>| s == #[trigger] (prefix + tail) {
        let tail = choose|tail: Seq<char>| s == #[trigger] (prefix + tail);
        assert(s.take(prefix.len() as int) =~= prefix);
    }
}

/// A line, its ending and what follows are told apart: the ending is a line feed, with a carriage
/// return before it or without, and belongs to no line. A text without an ending is one line as it
/// stands, and an empty text has no line.
pub proof fn lines_are_cut_at_their_endings(line: Seq<char>, rest: Seq<char>)
    requires
        !line.contains('\n'),
    ensures
        lines_of(Seq::empty()) == Seq::<Seq<char>>::empty(),
        line.len() > 0 ==> lines_of(line) == seq![line],
        lines_of(line + seq!['\r', '\n'] + rest) == seq![line] + lines_of(rest),
        line.len() == 0 || line.last() != '\r' ==> lines_of(line + seq!['\n'] + rest) == seq![line]
            + lines_of(rest),
{
    assert forall|j: int| 0 <= j < line.len() implies line[j] != '\n' by {
        assert(line.contains(line[j]));
    }
    line_end_is_first(line, line.len());
    let plain = line + seq!['\n'] + rest;
    line_end_is_first(plain, line.len());
    assert(plain.take(line.len() as int) =~= line);
    assert(plain.skip(line.len() as int + 1) =~= rest);
    let long = line + seq!['\r', '\n'] + rest;
    line_end_is_first(long, line.len() + 1);
    assert(long.take(line.len() as int + 1) =~= line.push('\r'));
    assert(line.push('\r').drop_last() =~= line);
    assert(long.skip(line.len() as int + 2) =~= rest);
}

proof fn start_is_trimmed(s: Seq<char>)
    ensures
        ({
            let t = trimmed_start(s);
            let n = s.len() - t.len();
            &&& 0 <= n <= s.len()
            &&& t == s.skip(n)
            &&& forall|i: int| 0 <= i < n ==> white_space(#[trigger] s[i])
            &&& t.len() > 0 ==> !white_space(t[0])
        }),
    decreases s.len(),
{
    if s.len() > 0 && white_space(s[0]) {
        start_is_trimmed(s.skip(1));
        let t = trimmed_start(s);
        let n = s.len() - t.len();
        assert(t =~= s.skip(n));
        assert forall|i: int| 0 <= i < n implies white_space(#[trigger] s[i]) by {
            if i > 0 {
                assert(s.skip(1)[i - 1] == s[i]);
            }
        }
    } else {
        assert(s.skip(0) =~= s);
    }
}

proof fn end_is_trimmed(s: Seq<char>)
    ensures
        ({
            let t = trimmed_end(s);
            &&& t.len() <= s.len()
            &&& t == s.take(t.len() as int)
            &&& forall|i: int| t.len() <= i < s.len() ==> white_space(#[trigger] s[i])
            &&& t.len() > 0 ==> !white_space(t.last())
        }),
    decreases s.len(),
{
    if s.len() > 0 && white_space(s.last()) {
        end_is_trimmed(s.drop_last());
        let t = trimmed_end(s);
        assert(t =~= s.take(t.len() as int));
        assert forall|i: int| t.len() <= i < s.len() implies white_space(#[trigger] s[i]) by {
            if i < s.len() - 1 {
                assert(s.drop_last()[i] == s[i]);
            }
        }
    } else {
        assert(s.take(s.len() as int) =~= s);
    }
}

/// A trimmed text is a part of the text: white space and nothing else is taken from its ends, and
/// none is left there.
pub proof fn only_white_space_is_trimmed(s: Seq<char>)
    ensures
        exists|before: Seq<char>, after: Seq<char>|
            {
                &&& s == #[trigger] (before + trimmed(s) + after)
                &&& forall|i: int| 0 <= i < before.len() ==> white_space(#[trigger] before[i])
                &&& forall|i: int| 0 <= i < after.len() ==> white_space(#[trigger] after[i])
            },
        trimmed(s).len() > 0 ==> !white_space(trimmed(s)[0]) && !white_space(trimmed(s).last()),
{
    start_is_trimmed(s);
    let t = trimmed_start(s);
    end_is_trimmed(t);
    let n = s.len() - t.len();
    let before = s.take(n);
    let after = t.skip(trimmed(s).len() as int);
    assert(s =~= before + trimmed(s) + after);
    assert forall|i: int| 0 <= i < after.len() implies white_space(#[trigger] after[i]) by {
        assert(after[i] == t[trimmed(s).len() + i]);
    }
}

/// Of no parts nothing is made, of one part that part, and of a further part what was made before,
/// the separator and the part.
pub proof fn parts_are_joined_in_order(
    parts: Seq<Seq<char>>,
    part: Seq<char>,
    separator: Seq<char>,
)
    ensures
        joined(Seq::empty(), separator) == Seq::<char>::empty(),
        joined(seq![part], separator) == part,
        parts.len() > 0 ==> joined(parts.push(part), separator) == joined(parts, separator)
            + separator + part,
{
    assert(parts.push(part).drop_last() =~= parts);
}

/// A capitalized text differs from the text in its first letter alone, which is the capital of a
/// small ASCII letter.
pub proof fn first_letter_is_capital(s: Seq<char>)
    ensures
        capitalized(s).len() == s.len(),
        forall|i: int| 0 < i < s.len() ==> capitalized(s)[i] == s[i],
        s.len() > 0 && 97 <= s[0] as int <= 122 ==> capitalized(s)[0] as int == s[0] as int - 32,
        s.len() > 0 && !(97 <= s[0] as int <= 122) ==> capitalized(s)[0] == s[0],
{
}

} // verus!

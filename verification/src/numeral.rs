//! Decimal numerals: reading unsigned numbers from text and writing them.

use vstd::prelude::*;

use crate::text::chars_of;

verus! {

/// Whether `c` is one of the ASCII digits.
pub open spec fn is_digit(c: char) -> bool {
    '0' <= c <= '9'
}

/// The number that a row of digits stands for.
pub open spec fn digits_value(digits: Seq<char>) -> nat
    decreases digits.len(),
{
    if digits.len() == 0 {
        0
    } else {
        digits_value(digits.drop_last()) * 10 + (digits.last() as nat - '0' as nat) as nat
    }
}

/// Whether a text is a row of at least one digit.
pub open spec fn is_digit_row(s: Seq<char>) -> bool {
    s.len() > 0 && forall|i: int| 0 <= i < s.len() ==> is_digit(#[trigger] s[i])
}

/// A text without the plus sign that it may begin with.
pub open spec fn without_plus(s: Seq<char>) -> Seq<char> {
    if s.len() > 0 && s[0] == '+' {
        s.skip(1)
    } else {
        s
    }
}

/// The number that a text stands for: digits, which a plus sign may precede.
pub open spec fn numeral(s: Seq<char>) -> Option<nat> {
    if is_digit_row(without_plus(s)) {
        Some(digits_value(without_plus(s)))
    } else {
        None
    }
}

/// The number that a text stands for, where it is at most `max`.
pub open spec fn numeral_up_to(s: Seq<char>, max: nat) -> Option<nat> {
    match numeral(s) {
        Some(n) if n <= max => Some(n),
        _ => None,
    }
}

proof fn more_digits_more_value(digits: Seq<char>, i: int)
    requires
        0 <= i <= digits.len(),
    ensures
        digits_value(digits.take(i)) <= digits_value(digits),
    decreases digits.len(),
{
    if i < digits.len() {
        more_digits_more_value(digits.drop_last(), i);
        assert(digits.drop_last().take(i) == digits.take(i));
    } else {
        assert(digits.take(i) == digits);
    }
}

/// Reads an unsigned number of at most `max`.
pub fn parse_up_to(s: &str, max: u64) -> (r: Option<u64>)
    ensures
        match r {
            Some(n) => numeral_up_to(s@, max as nat) == Some(n as nat),
            None => numeral_up_to(s@, max as nat) is None,
        },
{
    let all = chars_of(s);
    let mut i: usize = 0;
    if all.len() > 0 && all[0] == '+' {
        i = 1;
    }
    let start: usize = i;
    let ghost digits = without_plus(s@);
    assert(digits == all@.skip(start as int));
    if start == all.len() {
        return None;
    }
    let mut value: u64 = 0;
    assert(digits.take(0).len() == 0);
    while i < all.len()
        invariant
            start <= i <= all@.len(),
            start < all@.len(),
            digits == without_plus(s@),
            digits == all@.skip(start as int),
            value <= max,
            value == digits_value(digits.take(i - start)),
            forall|j: int| 0 <= j < i - start ==> is_digit(#[trigger] digits[j]),
        decreases all@.len() - i,
    {
        let c = all[i];
        let ghost k = i - start;
        assert(c == digits[k]);
        if c < '0' || c > '9' {
            assert(!is_digit(digits[k]));
            return None;
        }
        let d: u64 = (c as u32 - '0' as u32) as u64;
        proof {
            assert(digits.take(k + 1).drop_last() == digits.take(k));
            assert(digits.take(k + 1).last() == c);
            assert(digits_value(digits.take(k + 1)) == value * 10 + d);
            more_digits_more_value(digits, k + 1);
        }
        if d > max || value > (max - d) / 10 {
            return None;
        }
        value = value * 10 + d;
        i += 1;
    }
    assert(digits.take(digits.len() as int) == digits);
    Some(value)
}

/// Reads an unsigned number that fits in 64 bits.
pub fn parse_u64(s: &str) -> (r: Option<u64>)
    ensures
        match r {
            Some(n) => numeral_up_to(s@, u64::MAX as nat) == Some(n as nat),
            None => numeral_up_to(s@, u64::MAX as nat) is None,
        },
{
    parse_up_to(s, u64::MAX)
}

/// Reads an unsigned number that fits in 32 bits.
pub fn parse_u32(s: &str) -> (r: Option<u32>)
    ensures
        match r {
            Some(n) => numeral_up_to(s@, u32::MAX as nat) == Some(n as nat),
            None => numeral_up_to(s@, u32::MAX as nat) is None,
        },
{
    match parse_up_to(s, u32::MAX as u64) {
        Some(n) => Some(n as u32),
        None => None,
    }
}

/// The digit for a number below ten.
pub open spec fn digit(n: nat) -> char {
    (n + '0' as nat) as char
}

/// The decimal numeral of a number, without leading zeros.
pub open spec fn decimal(n: nat) -> Seq<char>
    decreases n,
{
    if n < 10 {
        seq![digit(n)]
    } else {
        decimal(n / 10).push(digit(n % 10))
    }
}

/// Writes a number as a decimal numeral.
pub fn decimal_string(n: u64) -> (r: String)
    ensures
        r@ == decimal(n as nat),
    decreases n,
{
    let mut out = if n < 10 {
        String::new()
    } else {
        decimal_string(n / 10)
    };
    let d: u8 = (n % 10) as u8 + 48;
    out.push(d as char);
    assert(out@ == decimal(n as nat));
    out
}

/// A number is read back from its numeral, which has no leading zero.
pub proof fn numeral_is_read_back(n: nat)
    ensures
        numeral(decimal(n)) == Some(n),
        forall|max: nat| n <= max ==> #[trigger] numeral_up_to(decimal(n), max) == Some(n),
        forall|max: nat| n > max ==> #[trigger] numeral_up_to(decimal(n), max) is None,
        n > 0 ==> decimal(n)[0] != '0',
        decimal(0) == seq!['0'],
{
    decimal_is_digits(n);
}

proof fn decimal_is_digits(n: nat)
    ensures
        is_digit_row(decimal(n)),
        digits_value(decimal(n)) == n,
        without_plus(decimal(n)) == decimal(n),
        n > 0 ==> decimal(n)[0] != '0',
    decreases n,
{
    if n < 10 {
        assert(decimal(n).drop_last() =~= Seq::empty());
        assert(digits_value(Seq::<char>::empty()) == 0);
    } else {
        decimal_is_digits(n / 10);
        let front = decimal(n / 10);
        assert(decimal(n).drop_last() =~= front);
        assert(decimal(n)[0] == front[0]);
        assert forall|i: int| 0 <= i < decimal(n).len() implies is_digit(
            #[trigger] decimal(n)[i],
        ) by {
            if i < front.len() {
                assert(decimal(n)[i] == front[i]);
            }
        }
    }
}

/// Digits are read by their place: a further digit makes ten times the number before it and its
/// own value. A plus sign before the digits changes nothing, and a text that holds anything else,
/// or no digit, is no number.
pub proof fn digits_count_by_place(digits: Seq<char>, last: char)
    requires
        forall|i: int| 0 <= i < digits.len() ==> 48 <= (#[trigger] digits[i]) as int <= 57,
        48 <= last as int <= 57,
    ensures
        digits.len() == 0 ==> numeral(digits.push(last)) == Some((last as int - 48) as nat),
        digits.len() > 0 ==> numeral(digits.push(last)) == Some(
            (numeral(digits)->0 * 10 + (last as int - 48)) as nat,
        ),
        numeral(seq!['+'] + digits.push(last)) == numeral(digits.push(last)),
        numeral(Seq::empty()) is None,
        numeral(seq!['+']) is None,
{
    let all = digits.push(last);
    assert(all.drop_last() =~= digits);
    assert((seq!['+'] + all).skip(1) =~= all);
    assert(seq!['+'].skip(1) =~= Seq::<char>::empty());
    assert(digits_value(Seq::<char>::empty()) == 0);
    assert(is_digit(all[all.len() - 1]));
    assert forall|i: int| 0 <= i < all.len() implies is_digit(#[trigger] all[i]) by {
        if i < digits.len() {
            assert(all[i] == digits[i]);
        }
    }
    assert forall|i: int| 0 <= i < digits.len() implies is_digit(#[trigger] digits[i]) by {}
    if digits.len() > 0 {
        assert(digits[0] != '+');
    }
    assert(all[0] != '+');
    if digits.len() == 0 {
        assert(digits =~= Seq::empty());
    }
}

/// A text in which anything but a digit stands behind its first character is no number, nor is one
/// that begins with anything but a digit or a plus sign.
pub proof fn other_characters_are_no_number(s: Seq<char>, i: int)
    requires
        0 <= i < s.len(),
        !(48 <= s[i] as int <= 57),
        i == 0 ==> s[0] != '+',
    ensures
        numeral(s) is None,
{
    let digits = without_plus(s);
    let k = i - (s.len() - digits.len());
    assert(digits[k] == s[i]);
    assert(!is_digit(digits[k]));
}

} // verus!

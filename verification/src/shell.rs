//! Quoting for the command line that a new terminal session runs.

use vstd::prelude::*;

use crate::text::{chars_of, join, joined};

verus! {

/// What a character becomes between single quotes: a single quote closes the quotes, stands
/// alone behind a backslash, and opens them again.
pub open spec fn quoted_char(c: char) -> Seq<char> {
    if c == '\'' {
        seq!['\'', '\\', '\'', '\'']
    } else {
        seq![c]
    }
}

/// What a text becomes between single quotes.
pub open spec fn quoted(s: Seq<char>) -> Seq<char>
    decreases s.len(),
{
    if s.len() == 0 {
        Seq::empty()
    } else {
        quoted_char(s[0]) + quoted(s.skip(1))
    }
}

/// A text in single quotes.
pub open spec fn escaped(s: Seq<char>) -> Seq<char> {
    seq!['\''] + quoted(s) + seq!['\'']
}

/// Puts a text in single quotes, so that a shell takes it as one word.
pub fn shell_escape(s: &str) -> (r: String)
    ensures
        r@ == escaped(s@),
{
    let all = chars_of(s);
    let mut out = String::new();
    out.push('\'');
    let mut i: usize = 0;
    proof {
        assert(all@.skip(0) == all@);
        assert(out@ =~= seq!['\'']);
    }
    while i < all.len()
        invariant
            i <= all@.len(),
            all@ == s@,
            out@ + quoted(all@.skip(i as int)) == seq!['\''] + quoted(s@),
        decreases all@.len() - i,
    {
        let ghost before = out@;
        let ghost rest = all@.skip(i as int);
        let c = all[i];
        if c == '\'' {
            out.push('\'');
            out.push('\\');
            out.push('\'');
            out.push('\'');
        } else {
            out.push(c);
        }
        proof {
            assert(out@ =~= before + quoted_char(c));
            assert(rest.skip(1) == all@.skip(i + 1));
            assert(out@ + quoted(rest.skip(1)) =~= before + (quoted_char(c) + quoted(
                rest.skip(1),
            )));
        }
        i += 1;
    }
    proof {
        assert(all@.skip(i as int).len() == 0);
        assert(out@ + Seq::<char>::empty() =~= out@);
    }
    out.push('\'');
    assert(out@ =~= escaped(s@));
    out
}

/// The texts, each in single quotes.
pub open spec fn all_escaped(args: Seq<Seq<char>>) -> Seq<Seq<char>> {
    args.map_values(|a: Seq<char>| escaped(a))
}

/// The command line that runs a program inside a new session, with a mark in its environment.
pub open spec fn session_command(program: Seq<char>, args: Seq<Seq<char>>) -> Seq<char> {
    "CLAUDE_AUTO_RETRY_ACTIVE=1 "@ + escaped(program) + " "@ + joined(all_escaped(args), " "@)
}

/// Builds the command line that runs a program inside a new session. Nothing follows the program:
/// when it exits, the session ends with it.
pub fn inner_command(program: &str, args: &Vec<String>) -> (r: String)
    ensures
        r@ == session_command(program@, args.deep_view()),
{
    let mut words: Vec<String> = Vec::new();
    let mut i: usize = 0;
    while i < args.len()
        invariant
            i <= args@.len(),
            words.deep_view() == all_escaped(args.deep_view()).take(i as int),
        decreases args@.len() - i,
    {
        let ghost before = words.deep_view();
        let word = shell_escape(args[i].as_str());
        let ghost text = word@;
        words.push(word);
        assert(words.deep_view() =~= before.push(text));
        i += 1;
        assert(words.deep_view() =~= all_escaped(args.deep_view()).take(i as int));
    }
    assert(words.deep_view() =~= all_escaped(args.deep_view()));
    "CLAUDE_AUTO_RETRY_ACTIVE=1 ".to_owned().concat(shell_escape(program).as_str()).concat(
        " ",
    ).concat(join(&words, " ").as_str())
}

/// The characters that stand for themselves outside of quotes.
pub open spec fn ordinary(c: char) -> bool {
    ||| 'a' <= c <= 'z'
    ||| 'A' <= c <= 'Z'
    ||| '0' <= c <= '9'
    ||| c == '_'
    ||| c == '='
}

/// The characters that were read of a word, which begins here if it did not before.
pub open spec fn begun(word: Option<Seq<char>>) -> Seq<char> {
    match word {
        Some(w) => w,
        None => Seq::empty(),
    }
}

/// The words that were read, with the one that ends here.
pub open spec fn ended(done: Seq<Seq<char>>, word: Option<Seq<char>>) -> Seq<Seq<char>> {
    match word {
        Some(w) => done.push(w),
        None => done,
    }
}

/// How a POSIX shell splits the rest of a command line into words, of the words that it has read,
/// of the word that it is in, and of whether it is inside single quotes. Nothing where the line
/// breaks off, is continued behind a backslash, or holds a character that a shell may give a
/// meaning of its own.
pub open spec fn split_words(
    s: Seq<char>,
    done: Seq<Seq<char>>,
    word: Option<Seq<char>>,
    in_quotes: bool,
) -> Option<Seq<Seq<char>>>
    decreases s.len(),
{
    if s.len() == 0 {
        if in_quotes {
            None
        } else {
            Some(ended(done, word))
        }
    } else if in_quotes {
        if s[0] == '\'' {
            split_words(s.skip(1), done, Some(begun(word)), false)
        } else {
            split_words(s.skip(1), done, Some(begun(word).push(s[0])), true)
        }
    } else if s[0] == '\'' {
        split_words(s.skip(1), done, Some(begun(word)), true)
    } else if s[0] == '\\' {
        if s.len() == 1 || s[1] == '\n' {
            None
        } else {
            split_words(s.skip(2), done, Some(begun(word).push(s[1])), false)
        }
    } else if s[0] == ' ' {
        split_words(s.skip(1), ended(done, word), None, false)
    } else if ordinary(s[0]) {
        split_words(s.skip(1), done, Some(begun(word).push(s[0])), false)
    } else {
        None
    }
}

/// The words of a command line.
pub open spec fn shell_words(s: Seq<char>) -> Option<Seq<Seq<char>>> {
    split_words(s, Seq::empty(), None, false)
}

proof fn quoted_text_is_read(
    s: Seq<char>,
    rest: Seq<char>,
    done: Seq<Seq<char>>,
    word: Seq<char>,
)
    ensures
        split_words(quoted(s) + rest, done, Some(word), true) == split_words(
            rest,
            done,
            Some(word + s),
            true,
        ),
    decreases s.len(),
{
    if s.len() == 0 {
        assert(quoted(s) + rest =~= rest);
        assert(word + s =~= word);
    } else {
        let tail = quoted(s.skip(1)) + rest;
        let line = quoted(s) + rest;
        quoted_text_is_read(s.skip(1), rest, done, word.push(s[0]));
        assert(word.push(s[0]) + s.skip(1) =~= word + s);
        if s[0] == '\'' {
            assert(line =~= seq!['\'', '\\', '\'', '\''] + tail);
            assert(line.skip(1) =~= seq!['\\', '\'', '\''] + tail);
            assert(line.skip(1).skip(2) =~= seq!['\''] + tail);
            assert(line.skip(1).skip(2).skip(1) =~= tail);
            reveal_with_fuel(split_words, 4);
        } else {
            assert(line =~= seq![s[0]] + tail);
            assert(line.skip(1) =~= tail);
        }
    }
}

proof fn escaped_text_is_read(s: Seq<char>, rest: Seq<char>, done: Seq<Seq<char>>)
    ensures
        split_words(escaped(s) + rest, done, None, false) == split_words(
            rest,
            done,
            Some(s),
            false,
        ),
{
    let line = escaped(s) + rest;
    let closing = seq!['\''] + rest;
    assert(line.skip(1) =~= quoted(s) + closing);
    quoted_text_is_read(s, closing, done, Seq::empty());
    assert(Seq::<char>::empty() + s =~= s);
    assert(closing.skip(1) =~= rest);
}

/// A shell takes an escaped text as one word, and that word is the text.
pub proof fn escaped_text_is_one_word(s: Seq<char>)
    ensures
        shell_words(escaped(s)) == Some(seq![s]),
{
    assert(escaped(s) + Seq::<char>::empty() =~= escaped(s));
    escaped_text_is_read(s, Seq::empty(), Seq::empty());
    assert(Seq::<Seq<char>>::empty().push(s) =~= seq![s]);
}

proof fn escaped_args_are_read(args: Seq<Seq<char>>, done: Seq<Seq<char>>)
    ensures
        split_words(joined(all_escaped(args), " "@), done, None, false) == Some(done + args),
    decreases args.len(),
{
    reveal_strlit(" ");
    assert(" "@ =~= seq![' ']);
    let line = joined(all_escaped(args), " "@);
    if args.len() == 0 {
        assert(done + args =~= done);
    } else {
        first_part_of_joined(all_escaped(args), " "@);
        assert(all_escaped(args)[0] == escaped(args[0]));
        if args.len() == 1 {
            assert(line =~= escaped(args[0]) + Seq::<char>::empty());
            escaped_text_is_read(args[0], Seq::empty(), done);
            assert(done.push(args[0]) =~= done + args);
        } else {
            let others = joined(all_escaped(args.skip(1)), " "@);
            assert(all_escaped(args).skip(1) =~= all_escaped(args.skip(1)));
            let rest = " "@ + others;
            assert(line =~= escaped(args[0]) + rest);
            escaped_text_is_read(args[0], rest, done);
            assert(rest.skip(1) =~= others);
            escaped_args_are_read(args.skip(1), done.push(args[0]));
            assert(done.push(args[0]) + args.skip(1) =~= done + args);
        }
    }
}

proof fn first_part_of_joined(parts: Seq<Seq<char>>, separator: Seq<char>)
    requires
        parts.len() > 0,
    ensures
        parts.len() > 1 ==> joined(parts, separator) == parts[0] + separator + joined(
            parts.skip(1),
            separator,
        ),
    decreases parts.len(),
{
    if parts.len() > 1 {
        let rest = parts.skip(1);
        if parts.len() == 2 {
            assert(joined(parts.drop_last(), separator) == parts[0]);
        } else {
            first_part_of_joined(parts.drop_last(), separator);
            assert(parts.drop_last().skip(1) =~= rest.drop_last());
            assert(joined(parts, separator) =~= parts[0] + separator + joined(rest, separator));
        }
    }
}

/// A shell reads the command line of a session as the mark, the program and its arguments, each
/// as it was given.
pub proof fn session_command_keeps_arguments(program: Seq<char>, args: Seq<Seq<char>>)
    ensures
        shell_words(session_command(program, args)) == Some(
            seq!["CLAUDE_AUTO_RETRY_ACTIVE=1"@, program] + args,
        ),
{
    reveal_strlit(" ");
    reveal_strlit("CLAUDE_AUTO_RETRY_ACTIVE=1");
    reveal_strlit("CLAUDE_AUTO_RETRY_ACTIVE=1 ");
    let mark = "CLAUDE_AUTO_RETRY_ACTIVE=1"@;
    let tail = joined(all_escaped(args), " "@);
    let after_program = " "@ + tail;
    let after_mark = " "@ + escaped(program) + after_program;
    let line = session_command(program, args);
    assert(" "@ =~= seq![' ']);
    assert("CLAUDE_AUTO_RETRY_ACTIVE=1 "@ =~= mark + " "@);
    assert(line =~= mark + after_mark);
    ordinary_text_is_read(mark, after_mark, Seq::empty(), None);
    assert(Seq::<char>::empty() + mark =~= mark);
    assert(after_mark.skip(1) =~= escaped(program) + after_program);
    let done = Seq::<Seq<char>>::empty().push(mark);
    escaped_text_is_read(program, after_program, done);
    assert(after_program.skip(1) =~= tail);
    escaped_args_are_read(args, done.push(program));
    assert(done.push(program) =~= seq![mark, program]);
}

proof fn ordinary_text_is_read(
    s: Seq<char>,
    rest: Seq<char>,
    done: Seq<Seq<char>>,
    word: Option<Seq<char>>,
)
    requires
        s.len() > 0,
        forall|i: int| 0 <= i < s.len() ==> ordinary(#[trigger] s[i]),
    ensures
        split_words(s + rest, done, word, false) == split_words(
            rest,
            done,
            Some(begun(word) + s),
            false,
        ),
    decreases s.len(),
{
    let line = s + rest;
    let longer = begun(word).push(s[0]);
    assert(line.skip(1) =~= s.skip(1) + rest);
    assert(ordinary(s[0]));
    if s.len() == 1 {
        assert(line.skip(1) =~= rest);
        assert(longer =~= begun(word) + s);
    } else {
        ordinary_text_is_read(s.skip(1), rest, done, Some(longer));
        assert(longer + s.skip(1) =~= begun(word) + s);
    }
}

} // verus!

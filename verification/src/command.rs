//! Parsing of loosely quoted command strings: the split of an executable from
//! its argument tail, and the quote-aware tokenizer of argument strings.

use vstd::prelude::*;
use crate::text::{
    chars_of, find_char, is_whitespace_char, lemma_position_of, position_of, skip_leading_blanks,
    skip_trailing_blanks, string_of_range, texts_of, trim_of, trim_start_of,
};

verus! {

/// What the tokenizer holds after reading a prefix of an argument string.
pub struct ArgScan {
    /// The tokens that are complete.
    pub done: Seq<Seq<char>>,
    /// The token that is being read.
    pub current: Seq<char>,
    /// Whether the reader stands inside a pair of quotes.
    pub in_quote: bool,
}

/// The tokenizer's state after one more character.
pub open spec fn scan_arg_char(st: ArgScan, c: char) -> ArgScan {
    if c == '"' {
        ArgScan { in_quote: !st.in_quote, ..st }
    } else if is_whitespace_char(c) && !st.in_quote {
        if st.current.len() > 0 {
            ArgScan { done: st.done.push(st.current), current: Seq::empty(), ..st }
        } else {
            st
        }
    } else {
        ArgScan { current: st.current.push(c), ..st }
    }
}

/// The tokenizer's state after the whole of `input`.
pub open spec fn scan_args(input: Seq<char>) -> ArgScan
    decreases input.len(),
{
    if input.len() == 0 {
        ArgScan { done: Seq::empty(), current: Seq::empty(), in_quote: false }
    } else {
        scan_arg_char(scan_args(input.drop_last()), input.last())
    }
}

/// The tokens of an argument string: runs of characters that whitespace
/// outside quotes separates, with the quote characters themselves left out.
pub open spec fn split_args_of(input: Seq<char>) -> Seq<Seq<char>> {
    let st = scan_args(input);
    if st.current.len() > 0 {
        st.done.push(st.current)
    } else {
        st.done
    }
}

/// No complete token is empty or holds a quote character, and the token that
/// is being read holds no quote character.
pub proof fn lemma_scan_args_tokens(input: Seq<char>)
    ensures
        forall|k: int|
            0 <= k < scan_args(input).done.len() ==> (#[trigger] scan_args(input).done[k]).len()
                > 0 && !scan_args(input).done[k].contains('"'),
        !scan_args(input).current.contains('"'),
    decreases input.len(),
{
    if input.len() > 0 {
        lemma_scan_args_tokens(input.drop_last());
        let before = scan_args(input.drop_last());
        let c = input.last();
        let after = scan_args(input);
        if c != '"' && !(is_whitespace_char(c) && !before.in_quote) {
            assert forall|j: int| 0 <= j < after.current.len() implies after.current[j]
                != '"' by {
                if j < before.current.len() {
                    assert(before.current.contains(before.current[j]));
                }
            }
        }
    }
}

/// Every token of an argument string is non-empty and free of quote
/// characters.
pub proof fn lemma_split_args_tokens(input: Seq<char>)
    ensures
        forall|k: int|
            0 <= k < split_args_of(input).len() ==> (#[trigger] split_args_of(input)[k]).len() > 0
                && !split_args_of(input)[k].contains('"'),
{
    lemma_scan_args_tokens(input);
}

/// Splits an argument string into its tokens. A quote character switches
/// quoting on or off and is dropped; whitespace outside quotes ends a token.
pub fn split_args(input: &str) -> (args: Vec<String>)
    ensures
        texts_of(args@) == split_args_of(input@),
        forall|k: int|
            0 <= k < args.len() ==> (#[trigger] args[k])@.len() > 0 && !args[k]@.contains('"'),
{
    let mut args: Vec<String> = Vec::new();
    let mut current = String::new();
    let mut in_quote = false;
    assert(texts_of(args@) =~= Seq::<Seq<char>>::empty());
    for c in it: input.chars()
        invariant
            it.seq() == input@,
            texts_of(args@) == scan_args(input@.take(it.index() as int)).done,
            current@ == scan_args(input@.take(it.index() as int)).current,
            in_quote == scan_args(input@.take(it.index() as int)).in_quote,
    {
        proof {
            let i = it.index() as int;
            assert(input@.take(i + 1).drop_last() == input@.take(i));
            assert(input@.take(i + 1).last() == c);
        }
        if c == '"' {
            in_quote = !in_quote;
        } else if c.is_whitespace() && !in_quote {
            if current.as_str().unicode_len() > 0 {
                let ghost before = args@;
                args.push(current);
                assert(texts_of(args@) =~= texts_of(before).push(current@));
                current = String::new();
            }
        } else {
            current.push(c);
        }
    }
    assert(input@.take(input@.len() as int) == input@);
    if current.as_str().unicode_len() > 0 {
        let ghost before = args@;
        args.push(current);
        assert(texts_of(args@) =~= texts_of(before).push(current@));
    }
    proof {
        lemma_split_args_tokens(input@);
        assert forall|k: int| 0 <= k < args.len() implies (#[trigger] args[k])@.len() > 0
            && !args[k]@.contains('"') by {
            assert(split_args_of(input@)[k] == args[k]@);
        }
    }
    args
}

/// The executable and the argument tail of a command string. The string is
/// trimmed first. Where it opens with a quote that is closed again, the
/// executable is what stands between the two quotes, and the tail is what
/// follows the closing quote, without its leading whitespace. Otherwise the
/// executable ends before the first space and the tail begins after it.
pub open spec fn split_command(input: Seq<char>) -> (Seq<char>, Seq<char>) {
    let t = trim_of(input);
    if has_quoted_executable(input) {
        let q = position_of(t.skip(1), '"');
        (t.subrange(1, q + 1), trim_start_of(t.skip(q + 2)))
    } else {
        let p = position_of(t, ' ');
        if p < t.len() {
            (t.take(p), t.skip(p + 1))
        } else {
            (t, Seq::empty())
        }
    }
}

/// Whether a command string, once trimmed, opens with a quote that is
/// closed again.
pub open spec fn has_quoted_executable(input: Seq<char>) -> bool {
    let t = trim_of(input);
    t.len() > 0 && t[0] == '"' && position_of(t.skip(1), '"') < t.len() - 1
}

/// A quoted executable holds no quote character. An executable that is not
/// quoted holds no space, and where a space follows it, the executable, that
/// space and the tail make up the trimmed command again.
pub proof fn lemma_executable_is_delimited(input: Seq<char>)
    ensures
        has_quoted_executable(input) ==> !split_command(input).0.contains('"'),
        !has_quoted_executable(input) ==> !split_command(input).0.contains(' '),
        !has_quoted_executable(input) && trim_of(input).contains(' ') ==> trim_of(input)
            == split_command(input).0 + seq![' '] + split_command(input).1,
        !has_quoted_executable(input) && !trim_of(input).contains(' ') ==> split_command(input)
            == (trim_of(input), Seq::<char>::empty()),
{
    let t = trim_of(input);
    let exe = split_command(input).0;
    if has_quoted_executable(input) {
        let inner = t.skip(1);
        lemma_position_of(inner, '"');
        assert forall|i: int| 0 <= i < exe.len() implies exe[i] != '"' by {
            assert(exe[i] == inner[i]);
        }
    } else {
        lemma_position_of(t, ' ');
        let p = position_of(t, ' ');
        if p < t.len() {
            assert(t.contains(t[p]));
            assert(t =~= exe + seq![' '] + split_command(input).1);
        } else {
            assert forall|i: int| 0 <= i < t.len() implies t[i] != ' ' by {}
        }
    }
}

/// Splits a command string, as an uninstall entry holds it, into the
/// executable and the argument tail.
pub fn parse_command_string(input: &str) -> (parts: (String, String))
    ensures
        parts.0@ == split_command(input@).0,
        parts.1@ == split_command(input@).1,
{
    let chars = chars_of(input);
    let n = chars.len();
    let lo = skip_leading_blanks(&chars, 0, n);
    let hi = skip_trailing_blanks(&chars, lo, n);
    let ghost t = chars@.subrange(lo as int, hi as int);
    assert(chars@.subrange(0, n as int) == chars@);
    assert(t == trim_of(input@));
    if lo < hi && chars[lo] == '"' {
        let close = find_char(&chars, lo + 1, hi, '"');
        assert(t.skip(1) == chars@.subrange(lo + 1, hi as int));
        if close < hi {
            let exe = string_of_range(&chars, lo + 1, close);
            let rest = skip_leading_blanks(&chars, close + 1, hi);
            let tail = string_of_range(&chars, rest, hi);
            proof {
                let q = close - lo - 1;
                assert(t.subrange(1, q + 1) == chars@.subrange(lo + 1, close as int));
                assert(t.skip(q + 2) == chars@.subrange(close + 1, hi as int));
            }
            return (exe, tail);
        }
    }
    let space = find_char(&chars, lo, hi, ' ');
    proof {
        let p = space - lo;
        assert(t.take(p) == chars@.subrange(lo as int, space as int));
        if space < hi {
            assert(t.skip(p + 1) == chars@.subrange(space + 1, hi as int));
        }
    }
    if space < hi {
        (string_of_range(&chars, lo, space), string_of_range(&chars, space + 1, hi))
    } else {
        (string_of_range(&chars, lo, hi), String::new())
    }
}

} // verus!

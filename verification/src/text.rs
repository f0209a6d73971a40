//! Character-level building blocks shared by the parsers of this crate.

use vstd::prelude::*;

verus! {

/// The lowercase form that `str::to_lowercase` gives to a text.
pub uninterp spec fn lowercase_of(text: Seq<char>) -> Seq<char>;

/// Whether `char::is_uppercase` holds of a character.
pub uninterp spec fn is_uppercase_char(c: char) -> bool;

/// Whether `char::is_whitespace` holds of a character.
pub uninterp spec fn is_whitespace_char(c: char) -> bool;

/// `str::to_lowercase`: the Unicode lowercase form of the text, which depends
/// on the text alone.
pub assume_specification[ str::to_lowercase ](s: &str) -> (lowered: String)
    ensures
        lowered@ == lowercase_of(s@),
;

/// `char::is_uppercase`: the Unicode `Uppercase` property of the character.
pub assume_specification[ char::is_uppercase ](c: char) -> (upper: bool)
    ensures
        upper == is_uppercase_char(c),
;

/// `char::is_whitespace`: the Unicode `White_Space` property of the character.
pub assume_specification[ char::is_whitespace ](c: char) -> (blank: bool)
    ensures
        blank == is_whitespace_char(c),
;

/// `String::push`: appends one character at the end of the string.
pub assume_specification[ String::push ](s: &mut String, c: char)
    ensures
        final(s)@ == old(s)@.push(c),
;

/// The characters of a text, in order.
pub fn chars_of(s: &str) -> (chars: Vec<char>)
    ensures
        chars@ == s@,
{
    let mut chars: Vec<char> = Vec::new();
    for c in it: s.chars()
        invariant
            chars@ == it.seq().take(it.index() as int),
            it.seq() == s@,
    {
        chars.push(c);
    }
    chars
}

/// Appends the characters of `more` to `text`.
pub fn push_text(text: &mut String, more: &str)
    ensures
        final(text)@ == old(text)@ + more@,
{
    for c in it: more.chars()
        invariant
            it.seq() == more@,
            text@ == old(text)@ + more@.take(it.index() as int),
    {
        text.push(c);
        assert(more@.take(it.index() + 1) == more@.take(it.index() as int).push(c));
    }
    assert(more@.take(more@.len() as int) == more@);
}

/// The decimal digits of a number, the highest first.
pub open spec fn digits_of(n: nat) -> Seq<char>
    decreases n,
{
    if n < 10 {
        seq!["0123456789"@[n as int]]
    } else {
        digits_of(n / 10).push("0123456789"@[(n % 10) as int])
    }
}

/// The decimal notation of an integer, with a minus sign before a negative
/// one.
pub open spec fn decimal_of(n: int) -> Seq<char> {
    if n < 0 {
        seq!['-'] + digits_of((-n) as nat)
    } else {
        digits_of(n as nat)
    }
}

/// Appends the decimal digits of `n` to `text`.
pub fn push_digits(text: &mut String, n: u64)
    ensures
        final(text)@ == old(text)@ + digits_of(n as nat),
    decreases n,
{
    proof {
        reveal_strlit("0123456789");
    }
    if n >= 10 {
        push_digits(text, n / 10);
    }
    let digit = "0123456789".get_char((n % 10) as usize);
    text.push(digit);
    assert(text@ =~= old(text)@ + digits_of(n as nat));
}

/// Appends the decimal notation of `n` to `text`.
pub fn push_decimal(text: &mut String, n: i32)
    ensures
        final(text)@ == old(text)@ + decimal_of(n as int),
{
    if n < 0 {
        text.push('-');
        let wide: i64 = n as i64;
        let size: u64 = (-wide) as u64;
        push_digits(text, size);
        assert(text@ =~= old(text)@ + decimal_of(n as int));
    } else {
        push_digits(text, n as u64);
    }
}

/// The view of an optional string.
pub open spec fn optional_text(text: Option<String>) -> Option<Seq<char>> {
    match text {
        Some(s) => Some(s@),
        None => None,
    }
}

/// The text made of the characters of `chars` from `lo` up to `hi`.
pub(crate) fn string_of_range(chars: &Vec<char>, lo: usize, hi: usize) -> (s: String)
    requires
        lo <= hi <= chars.len(),
    ensures
        s@ == chars@.subrange(lo as int, hi as int),
{
    let mut s = String::new();
    let mut i: usize = lo;
    while i < hi
        invariant
            lo <= i <= hi <= chars.len(),
            s@ == chars@.subrange(lo as int, i as int),
        decreases hi - i,
    {
        s.push(chars[i]);
        i += 1;
        assert(chars@.subrange(lo as int, i as int) == chars@.subrange(lo as int, i - 1).push(
            chars@[i - 1],
        ));
    }
    s
}

/// Whether two texts hold the same characters.
pub fn same_text(a: &str, b: &str) -> (same: bool)
    ensures
        same == (a@ == b@),
{
    let left = chars_of(a);
    let right = chars_of(b);
    if left.len() != right.len() {
        return false;
    }
    let mut i: usize = 0;
    while i < left.len()
        invariant
            left@ == a@,
            right@ == b@,
            left.len() == right.len(),
            i <= left.len(),
            left@.take(i as int) == right@.take(i as int),
        decreases left.len() - i,
    {
        if left[i] != right[i] {
            assert(a@[i as int] != b@[i as int]);
            return false;
        }
        i += 1;
        assert(left@.take(i as int) == left@.take(i - 1).push(left@[i - 1]));
        assert(right@.take(i as int) == right@.take(i - 1).push(right@[i - 1]));
    }
    assert(left@.take(i as int) == left@);
    assert(right@.take(i as int) == right@);
    true
}

/// Whether `needle` stands in `hay` at the index `at`.
pub open spec fn occurs_at(needle: Seq<char>, hay: Seq<char>, at: int) -> bool {
    0 <= at && at + needle.len() <= hay.len() && hay.subrange(at, at + needle.len()) == needle
}

/// Whether `needle` stands somewhere in `hay` as a run of adjacent
/// characters.
pub open spec fn is_substring(needle: Seq<char>, hay: Seq<char>) -> bool {
    exists|at: int| occurs_at(needle, hay, at)
}

/// Whether `needle` stands in `hay` at the index `at`.
pub(crate) fn matches_at(hay: &Vec<char>, needle: &Vec<char>, at: usize) -> (found: bool)
    requires
        at + needle.len() <= hay.len(),
    ensures
        found == occurs_at(needle@, hay@, at as int),
{
    let ghost window = hay@.subrange(at as int, at + needle.len());
    let mut j: usize = 0;
    while j < needle.len()
        invariant
            j <= needle.len(),
            at + needle.len() <= hay.len(),
            window == hay@.subrange(at as int, at + needle.len()),
            window.take(j as int) == needle@.take(j as int),
        decreases needle.len() - j,
    {
        if hay[at + j] != needle[j] {
            assert(window[j as int] != needle@[j as int]);
            return false;
        }
        j += 1;
        assert(window.take(j as int) == window.take(j - 1).push(window[j - 1]));
        assert(needle@.take(j as int) == needle@.take(j - 1).push(needle@[j - 1]));
    }
    assert(window.take(j as int) == window);
    assert(needle@.take(j as int) == needle@);
    true
}

/// Whether `needle` stands somewhere in `hay`.
pub fn contains_chars(hay: &Vec<char>, needle: &Vec<char>) -> (found: bool)
    ensures
        found == is_substring(needle@, hay@),
{
    if needle.len() > hay.len() {
        return false;
    }
    let last: usize = hay.len() - needle.len();
    let mut at: usize = 0;
    while at < last
        invariant
            last == hay.len() - needle.len(),
            at <= last,
            forall|k: int| 0 <= k < at ==> !occurs_at(needle@, hay@, k),
        decreases last - at,
    {
        if matches_at(hay, needle, at) {
            return true;
        }
        at += 1;
    }
    matches_at(hay, needle, last)
}

/// The views of a sequence of strings, item by item.
pub open spec fn texts_of(items: Seq<String>) -> Seq<Seq<char>> {
    Seq::new(items.len(), |i: int| items[i]@)
}

/// The index of the first `c` in `s`, or the length of `s` where there is none.
pub open spec fn position_of(s: Seq<char>, c: char) -> int
    decreases s.len(),
{
    if s.len() == 0 || s[0] == c {
        0
    } else {
        1 + position_of(s.drop_first(), c)
    }
}

/// `position_of` is the least index that holds `c`.
pub proof fn lemma_position_of(s: Seq<char>, c: char)
    ensures
        0 <= position_of(s, c) <= s.len(),
        forall|i: int| 0 <= i < position_of(s, c) ==> s[i] != c,
        position_of(s, c) < s.len() ==> s[position_of(s, c)] == c,
    decreases s.len(),
{
    if s.len() == 0 || s[0] == c {
    } else {
        let rest = s.drop_first();
        lemma_position_of(rest, c);
        assert forall|i: int| 0 <= i < position_of(s, c) implies s[i] != c by {
            if i > 0 {
                assert(s[i] == rest[i - 1]);
            }
        }
    }
}

/// The first index of `c` in `chars[from..to]`, counted in `chars`, or `to`.
pub(crate) fn find_char(chars: &Vec<char>, from: usize, to: usize, c: char) -> (at: usize)
    requires
        from <= to <= chars.len(),
    ensures
        from <= at <= to,
        at - from == position_of(chars@.subrange(from as int, to as int), c),
{
    let mut i: usize = from;
    while i < to && chars[i] != c
        invariant
            from <= i <= to <= chars.len(),
            position_of(chars@.subrange(from as int, to as int), c) == (i - from) + position_of(
                chars@.subrange(i as int, to as int),
                c,
            ),
        decreases to - i,
    {
        assert(chars@.subrange(i as int, to as int).drop_first() == chars@.subrange(
            i + 1,
            to as int,
        ));
        i += 1;
    }
    i
}

/// What follows the last `sep` in `s`; the whole of `s` where it holds none.
pub open spec fn after_last(s: Seq<char>, sep: char) -> Seq<char>
    decreases s.len(),
{
    if s.len() == 0 || s.last() == sep {
        Seq::empty()
    } else {
        after_last(s.drop_last(), sep).push(s.last())
    }
}

/// `after_last` is the longest end piece of the text that holds no
/// separator: a separator stands before it, unless it is the whole text.
pub proof fn lemma_after_last(s: Seq<char>, sep: char)
    ensures
        after_last(s, sep).len() <= s.len(),
        after_last(s, sep) == s.skip(s.len() - after_last(s, sep).len()),
        !after_last(s, sep).contains(sep),
        after_last(s, sep).len() < s.len() ==> s[s.len() - after_last(s, sep).len() - 1] == sep,
    decreases s.len(),
{
    if s.len() == 0 || s.last() == sep {
        assert(after_last(s, sep) =~= s.skip(s.len() as int));
    } else {
        let front = s.drop_last();
        lemma_after_last(front, sep);
        let tail = after_last(front, sep);
        assert(after_last(s, sep) =~= s.skip(s.len() - tail.len() - 1));
        assert forall|i: int| 0 <= i < tail.len() + 1 implies after_last(s, sep)[i] != sep by {
            if i < tail.len() {
                assert(tail.contains(tail[i]));
            }
        }
    }
}

/// What stands before the first `stop` in `s`; the whole of `s` where it
/// holds none.
pub open spec fn before_first(s: Seq<char>, stop: char) -> Seq<char> {
    s.take(position_of(s, stop))
}

/// The index in `chars[from..to]` behind its last `sep`, or `from`.
pub(crate) fn start_after_last(chars: &Vec<char>, from: usize, to: usize, sep: char) -> (start: usize)
    requires
        from <= to <= chars.len(),
    ensures
        from <= start <= to,
        chars@.subrange(start as int, to as int) == after_last(
            chars@.subrange(from as int, to as int),
            sep,
        ),
{
    let mut start: usize = to;
    while start > from && chars[start - 1] != sep
        invariant
            from <= start <= to <= chars.len(),
            after_last(chars@.subrange(from as int, to as int), sep) == after_last(
                chars@.subrange(from as int, start as int),
                sep,
            ) + chars@.subrange(start as int, to as int),
        decreases start - from,
    {
        proof {
            let head = chars@.subrange(from as int, start as int);
            assert(head.drop_last() == chars@.subrange(from as int, start - 1));
            assert(after_last(head.drop_last(), sep).push(head.last()) + chars@.subrange(
                start as int,
                to as int,
            ) =~= after_last(head.drop_last(), sep) + chars@.subrange(start - 1, to as int));
        }
        start -= 1;
    }
    assert(after_last(chars@.subrange(from as int, start as int), sep) =~= Seq::<char>::empty());
    start
}

/// Whether `s` ends with `suffix`.
pub open spec fn ends_with(s: Seq<char>, suffix: Seq<char>) -> bool {
    suffix.len() <= s.len() && s.skip(s.len() - suffix.len()) == suffix
}

/// Whether the characters end with those of `suffix`.
pub fn has_suffix(chars: &Vec<char>, suffix: &Vec<char>) -> (found: bool)
    ensures
        found == ends_with(chars@, suffix@),
{
    if suffix.len() > chars.len() {
        return false;
    }
    let at: usize = chars.len() - suffix.len();
    assert(chars@.skip(at as int) == chars@.subrange(at as int, at + suffix.len()));
    matches_at(chars, suffix, at)
}

/// The text without its leading whitespace.
pub open spec fn trim_start_of(s: Seq<char>) -> Seq<char>
    decreases s.len(),
{
    if s.len() > 0 && is_whitespace_char(s[0]) {
        trim_start_of(s.drop_first())
    } else {
        s
    }
}

/// The text without its trailing whitespace.
pub open spec fn trim_end_of(s: Seq<char>) -> Seq<char>
    decreases s.len(),
{
    if s.len() > 0 && is_whitespace_char(s.last()) {
        trim_end_of(s.drop_last())
    } else {
        s
    }
}

/// `trim_start_of` is the end piece of the text that begins at its first
/// character that is no whitespace.
pub proof fn lemma_trim_start_of(s: Seq<char>)
    ensures
        trim_start_of(s).len() <= s.len(),
        trim_start_of(s) == s.skip(s.len() - trim_start_of(s).len()),
        forall|i: int| 0 <= i < s.len() - trim_start_of(s).len() ==> is_whitespace_char(s[i]),
        trim_start_of(s).len() > 0 ==> !is_whitespace_char(trim_start_of(s)[0]),
    decreases s.len(),
{
    if s.len() > 0 && is_whitespace_char(s[0]) {
        let rest = s.drop_first();
        lemma_trim_start_of(rest);
        let cut = s.len() - trim_start_of(s).len();
        assert(trim_start_of(s) =~= s.skip(cut));
        assert forall|i: int| 0 <= i < cut implies is_whitespace_char(s[i]) by {
            if i > 0 {
                assert(s[i] == rest[i - 1]);
            }
        }
    } else {
        assert(s =~= s.skip(0));
    }
}

/// `trim_end_of` is the front piece of the text that ends with its last
/// character that is no whitespace.
pub proof fn lemma_trim_end_of(s: Seq<char>)
    ensures
        trim_end_of(s).len() <= s.len(),
        trim_end_of(s) == s.take(trim_end_of(s).len() as int),
        forall|i: int| trim_end_of(s).len() <= i < s.len() ==> is_whitespace_char(s[i]),
        trim_end_of(s).len() > 0 ==> !is_whitespace_char(trim_end_of(s).last()),
    decreases s.len(),
{
    if s.len() > 0 && is_whitespace_char(s.last()) {
        let front = s.drop_last();
        lemma_trim_end_of(front);
        assert(trim_end_of(s) =~= s.take(trim_end_of(s).len() as int));
        assert forall|i: int| trim_end_of(s).len() <= i < s.len() implies is_whitespace_char(
            s[i],
        ) by {
            if i < front.len() {
                assert(s[i] == front[i]);
            }
        }
    } else {
        assert(s =~= s.take(s.len() as int));
    }
}

/// The text without its leading and trailing whitespace.
pub open spec fn trim_of(s: Seq<char>) -> Seq<char> {
    trim_end_of(trim_start_of(s))
}

/// The index in `chars[from..to]` at which its leading whitespace ends.
pub(crate) fn skip_leading_blanks(chars: &Vec<char>, from: usize, to: usize) -> (lo: usize)
    requires
        from <= to <= chars.len(),
    ensures
        from <= lo <= to,
        chars@.subrange(lo as int, to as int) == trim_start_of(
            chars@.subrange(from as int, to as int),
        ),
{
    let mut lo: usize = from;
    while lo < to && chars[lo].is_whitespace()
        invariant
            from <= lo <= to <= chars.len(),
            trim_start_of(chars@.subrange(from as int, to as int)) == trim_start_of(
                chars@.subrange(lo as int, to as int),
            ),
        decreases to - lo,
    {
        assert(chars@.subrange(lo as int, to as int).drop_first() == chars@.subrange(
            lo + 1,
            to as int,
        ));
        lo += 1;
    }
    lo
}

/// The index in `chars[from..to]` at which its trailing whitespace starts.
pub(crate) fn skip_trailing_blanks(chars: &Vec<char>, from: usize, to: usize) -> (hi: usize)
    requires
        from <= to <= chars.len(),
    ensures
        from <= hi <= to,
        chars@.subrange(from as int, hi as int) == trim_end_of(
            chars@.subrange(from as int, to as int),
        ),
{
    let mut hi: usize = to;
    while hi > from && chars[hi - 1].is_whitespace()
        invariant
            from <= hi <= to <= chars.len(),
            trim_end_of(chars@.subrange(from as int, to as int)) == trim_end_of(
                chars@.subrange(from as int, hi as int),
            ),
        decreases hi - from,
    {
        assert(chars@.subrange(from as int, hi as int).drop_last() == chars@.subrange(
            from as int,
            hi - 1,
        ));
        hi -= 1;
    }
    hi
}

} // verus!

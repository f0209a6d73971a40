//! Extraction of search keywords from the free-text name of a software
//! product.

use vstd::prelude::*;
use crate::text::{is_uppercase_char, lowercase_of, same_text, texts_of};

verus! {

/// What the word splitter holds after reading a prefix of a name.
pub struct WordScan {
    /// The words that are complete, each in lowercase.
    pub words: Seq<Seq<char>>,
    /// The word that is being read, as it was written.
    pub current: Seq<char>,
}

/// Whether a character separates two words of a name.
pub open spec fn is_word_separator(c: char) -> bool {
    c == '_' || c == '-' || c == ' ' || c == '.'
}

/// The word splitter's state after one more character. A separator ends the
/// word that is being read; an uppercase letter behind a non-empty word ends
/// it too and begins the next one.
pub open spec fn scan_word_char(st: WordScan, c: char) -> WordScan {
    if is_word_separator(c) {
        if st.current.len() > 0 {
            WordScan { words: st.words.push(lowercase_of(st.current)), current: Seq::empty() }
        } else {
            st
        }
    } else if is_uppercase_char(c) && st.current.len() > 0 {
        WordScan { words: st.words.push(lowercase_of(st.current)), current: seq![c] }
    } else {
        WordScan { current: st.current.push(c), ..st }
    }
}

/// The word splitter's state after the whole of `name`.
pub open spec fn scan_words(name: Seq<char>) -> WordScan
    decreases name.len(),
{
    if name.len() == 0 {
        WordScan { words: Seq::empty(), current: Seq::empty() }
    } else {
        scan_word_char(scan_words(name.drop_last()), name.last())
    }
}

/// The words of a name, each in lowercase, in the order in which they stand.
pub open spec fn words_of(name: Seq<char>) -> Seq<Seq<char>> {
    let st = scan_words(name);
    if st.current.len() > 0 {
        st.words.push(lowercase_of(st.current))
    } else {
        st.words
    }
}

/// Whether a lowercase word is packaging noise that says nothing of the
/// product.
pub open spec fn is_stop_word(word: Seq<char>) -> bool {
    ||| word == "standalone"@
    ||| word == "silent"@
    ||| word == "setup"@
    ||| word == "installer"@
    ||| word == "install"@
    ||| word == "x64"@
    ||| word == "x86"@
    ||| word == "win"@
    ||| word == "windows"@
}

/// Whether a lowercase word counts as a keyword: it has three characters or
/// more and is no stop word.
pub open spec fn is_keyword(word: Seq<char>) -> bool {
    word.len() >= 3 && !is_stop_word(word)
}

/// `is_keyword` as a predicate to filter by.
pub open spec fn keyword_filter() -> spec_fn(Seq<char>) -> bool {
    |word: Seq<char>| is_keyword(word)
}

/// The keywords of a name: its words in lowercase, without the short ones
/// and the stop words.
pub open spec fn keywords_of(name: Seq<char>) -> Seq<Seq<char>> {
    words_of(name).filter(keyword_filter())
}

/// Whether a lowercase word is a stop word.
pub fn stop_word(word: &str) -> (stop: bool)
    ensures
        stop == is_stop_word(word@),
{
    same_text(word, "standalone") || same_text(word, "silent") || same_text(word, "setup")
        || same_text(word, "installer") || same_text(word, "install") || same_text(word, "x64")
        || same_text(word, "x86") || same_text(word, "win") || same_text(word, "windows")
}

/// Splits a name into its words, each in lowercase.
pub fn split_words(name: &str) -> (words: Vec<String>)
    ensures
        texts_of(words@) == words_of(name@),
{
    let mut words: Vec<String> = Vec::new();
    let mut current = String::new();
    assert(texts_of(words@) =~= Seq::<Seq<char>>::empty());
    for c in it: name.chars()
        invariant
            it.seq() == name@,
            texts_of(words@) == scan_words(name@.take(it.index() as int)).words,
            current@ == scan_words(name@.take(it.index() as int)).current,
    {
        proof {
            let i = it.index() as int;
            assert(name@.take(i + 1).drop_last() == name@.take(i));
            assert(name@.take(i + 1).last() == c);
        }
        if c == '_' || c == '-' || c == ' ' || c == '.' {
            if current.as_str().unicode_len() > 0 {
                let ghost before = words@;
                let lowered = current.as_str().to_lowercase();
                words.push(lowered);
                assert(texts_of(words@) =~= texts_of(before).push(lowercase_of(current@)));
                current = String::new();
            }
        } else if c.is_uppercase() && current.as_str().unicode_len() > 0 {
            let ghost before = words@;
            let lowered = current.as_str().to_lowercase();
            words.push(lowered);
            assert(texts_of(words@) =~= texts_of(before).push(lowercase_of(current@)));
            current = String::new();
            current.push(c);
            assert(current@ =~= seq![c]);
        } else {
            current.push(c);
        }
    }
    assert(name@.take(name@.len() as int) == name@);
    if current.as_str().unicode_len() > 0 {
        let ghost before = words@;
        let lowered = current.as_str().to_lowercase();
        words.push(lowered);
        assert(texts_of(words@) =~= texts_of(before).push(lowercase_of(current@)));
    }
    words
}

/// The keywords by which a product is looked for: the words of its name in
/// lowercase, short words and stop words left out, in the order of the name.
pub fn extract_keywords(name: &str) -> (keywords: Vec<String>)
    ensures
        texts_of(keywords@) == keywords_of(name@),
        forall|k: int| 0 <= k < keywords.len() ==> is_keyword(#[trigger] keywords[k]@),
{
    let words = split_words(name);
    let mut keywords: Vec<String> = Vec::new();
    let mut i: usize = 0;
    assert(texts_of(words@).take(0) =~= Seq::<Seq<char>>::empty());
    assert(texts_of(keywords@) =~= Seq::<Seq<char>>::empty());
    proof {
        reveal(Seq::filter);
    }
    while i < words.len()
        invariant
            i <= words.len(),
            texts_of(keywords@) == texts_of(words@).take(i as int).filter(keyword_filter()),
            forall|k: int| 0 <= k < keywords.len() ==> is_keyword(#[trigger] keywords[k]@),
        decreases words.len() - i,
    {
        let word = words[i].clone();
        proof {
            let seen = texts_of(words@).take(i as int);
            assert(texts_of(words@).take(i + 1) == seen.push(word@));
            seen.lemma_filter_push(word@, keyword_filter());
        }
        if word.as_str().unicode_len() >= 3 && !stop_word(word.as_str()) {
            let ghost before = keywords@;
            keywords.push(word);
            assert(texts_of(keywords@) =~= texts_of(before).push(word@));
        }
        i += 1;
    }
    assert(texts_of(words@).take(i as int) == texts_of(words@));
    keywords
}

} // verus!

//! Naming of a downloaded artifact: the bare file name under which it is
//! stored, whatever the URL it came from looks like, and the test for the
//! structured package format.

use vstd::prelude::*;
use crate::text::{
    after_last, before_first, chars_of, ends_with, find_char, has_suffix, lemma_after_last,
    lemma_position_of, lowercase_of, same_text, start_after_last, string_of_range,
};

verus! {

/// The name given to an artifact whose URL yields no usable file name.
pub open spec fn default_artifact_name() -> Seq<char> {
    "installer.exe"@
}

/// The file name component of a path: what follows its last separator, be
/// it a slash or a backslash.
pub open spec fn file_name_component(path: Seq<char>) -> Seq<char> {
    after_last(after_last(path, '/'), '\\')
}

/// Whether a name can stand for a file of its own in a directory.
pub open spec fn is_usable_name(name: Seq<char>) -> bool {
    name.len() > 0 && name != seq!['.'] && name != seq!['.', '.']
}

/// The file name under which the artifact of `url` is stored: the last
/// segment of the URL, cut at its first `?`, and of that the file name
/// component; the default name where this leaves nothing usable.
pub open spec fn artifact_name_of(url: Seq<char>) -> Seq<char> {
    let name = file_name_component(before_first(after_last(url, '/'), '?'));
    if is_usable_name(name) {
        name
    } else {
        default_artifact_name()
    }
}

/// Whether a name is a bare file name: not empty, no directory reference,
/// and without path separators or a query string.
pub open spec fn is_bare_file_name(name: Seq<char>) -> bool {
    &&& is_usable_name(name)
    &&& !name.contains('/')
    &&& !name.contains('\\')
    &&& !name.contains('?')
}

/// The default name is a bare file name.
pub proof fn lemma_default_name_is_bare()
    ensures
        is_bare_file_name(default_artifact_name()),
{
    reveal_strlit("installer.exe");
    let name = default_artifact_name();
    assert(name.len() == 13);
    assert(name[0] == 'i');
    assert forall|i: int| 0 <= i < name.len() implies name[i] != '/' && name[i] != '\\' && name[i]
        != '?' by {}
}

/// Whatever the URL, the artifact's name is a bare file name: an adversarial
/// URL cannot make the artifact land outside its scratch directory.
pub proof fn lemma_artifact_name_is_bare(url: Seq<char>)
    ensures
        is_bare_file_name(artifact_name_of(url)),
{
    let segment = after_last(url, '/');
    let base = before_first(segment, '?');
    let inner = after_last(base, '/');
    let name = after_last(inner, '\\');
    lemma_after_last(url, '/');
    lemma_position_of(segment, '?');
    lemma_after_last(base, '/');
    lemma_after_last(inner, '\\');
    if is_usable_name(name) {
        let skipped = inner.len() - name.len();
        let dropped = base.len() - inner.len();
        assert forall|i: int| 0 <= i < name.len() implies name[i] != '/' && name[i] != '\\'
            && name[i] != '?' by {
            assert(name[i] == inner[skipped + i]);
            assert(inner[skipped + i] == base[dropped + skipped + i]);
            assert(base[dropped + skipped + i] == segment[dropped + skipped + i]);
            assert(inner.contains(inner[skipped + i]));
            assert(name.contains(name[i]));
        }
    } else {
        lemma_default_name_is_bare();
    }
}

/// Derives from an artifact's URL the file name under which it is stored.
pub fn artifact_file_name(url: &str) -> (name: String)
    ensures
        name@ == artifact_name_of(url@),
        is_bare_file_name(name@),
{
    let chars = chars_of(url);
    let n = chars.len();
    assert(chars@.subrange(0, n as int) == chars@);
    let segment_start = start_after_last(&chars, 0, n, '/');
    let query = find_char(&chars, segment_start, n, '?');
    let ghost segment = chars@.subrange(segment_start as int, n as int);
    let ghost base = chars@.subrange(segment_start as int, query as int);
    assert(base == before_first(segment, '?'));
    let inner_start = start_after_last(&chars, segment_start, query, '/');
    let name_start = start_after_last(&chars, inner_start, query, '\\');
    let name = string_of_range(&chars, name_start, query);
    proof {
        lemma_artifact_name_is_bare(url@);
        reveal_strlit(".");
        reveal_strlit("..");
        assert("."@ =~= seq!['.']);
        assert(".."@ =~= seq!['.', '.']);
    }
    if name.as_str().unicode_len() == 0 || same_text(name.as_str(), ".") || same_text(
        name.as_str(),
        "..",
    ) {
        "installer.exe".to_owned()
    } else {
        name
    }
}

/// The extension of the structured package format, with its dot.
pub open spec fn package_extension() -> Seq<char> {
    ".msi"@
}

/// Whether a file name is one of the structured package format: its
/// lowercase form ends with the package extension.
pub open spec fn is_package_name(file_name: Seq<char>) -> bool {
    ends_with(lowercase_of(file_name), package_extension())
}

/// Whether the lowercase form of a file name ends with `extension`.
pub fn has_extension(file_name: &str, extension: &str) -> (found: bool)
    ensures
        found == ends_with(lowercase_of(file_name@), extension@),
{
    let lowered = file_name.to_lowercase();
    let chars = chars_of(lowered.as_str());
    let suffix = chars_of(extension);
    has_suffix(&chars, &suffix)
}

/// Whether a file name is one of the structured package format, whatever
/// the case it is written in.
pub fn is_package_file(file_name: &str) -> (package: bool)
    ensures
        package == is_package_name(file_name@),
{
    has_extension(file_name, ".msi")
}

} // verus!

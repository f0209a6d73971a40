//! Resolution of an uninstall command for a free-text product name, by
//! matching its keywords against the entries of the system's uninstall
//! registry.

use vstd::prelude::*;
use crate::keywords::{extract_keywords, keywords_of};
use crate::text::{
    chars_of, contains_chars, is_substring, lowercase_of, optional_text, texts_of,
};

verus! {

/// One entry of the uninstall registry, as read from the system: the name
/// that it shows, and the commands that it offers.
pub struct UninstallEntry {
    /// The product's display name; empty where the entry has none.
    pub display_name: String,
    /// The command that uninstalls without prompts, if the entry has one.
    pub quiet_uninstall: Option<String>,
    /// The interactive uninstall command, if the entry has one.
    pub uninstall: Option<String>,
}

/// An `UninstallEntry` as plain values.
pub struct UninstallEntryView {
    pub display_name: Seq<char>,
    pub quiet_uninstall: Option<Seq<char>>,
    pub uninstall: Option<Seq<char>>,
}

impl View for UninstallEntry {
    type V = UninstallEntryView;

    open spec fn view(&self) -> UninstallEntryView {
        UninstallEntryView {
            display_name: self.display_name@,
            quiet_uninstall: optional_text(self.quiet_uninstall),
            uninstall: optional_text(self.uninstall),
        }
    }
}

/// The views of a sequence of entries, item by item.
pub open spec fn entries_of(entries: Seq<UninstallEntry>) -> Seq<UninstallEntryView> {
    Seq::new(entries.len(), |i: int| entries[i]@)
}

/// What a look into the uninstall registry gave.
pub enum RegistryLookup {
    /// The platform has no uninstall registry to search.
    Unsupported,
    /// The entries of the registry, in the order in which it was walked.
    Listed { entries: Vec<UninstallEntry> },
}

/// A `RegistryLookup` as plain values.
pub enum RegistryLookupView {
    Unsupported,
    Listed { entries: Seq<UninstallEntryView> },
}

impl View for RegistryLookup {
    type V = RegistryLookupView;

    open spec fn view(&self) -> RegistryLookupView {
        match self {
            RegistryLookup::Unsupported => RegistryLookupView::Unsupported,
            RegistryLookup::Listed { entries } => RegistryLookupView::Listed {
                entries: entries_of(entries@),
            },
        }
    }
}

/// The entry that won the selection, with the score that it reached.
pub struct UninstallCandidate {
    pub display_name: String,
    pub raw_command: String,
    pub score: usize,
}

/// An `UninstallCandidate` as plain values.
pub struct UninstallCandidateView {
    pub display_name: Seq<char>,
    pub raw_command: Seq<char>,
    pub score: nat,
}

impl View for UninstallCandidate {
    type V = UninstallCandidateView;

    open spec fn view(&self) -> UninstallCandidateView {
        UninstallCandidateView {
            display_name: self.display_name@,
            raw_command: self.raw_command@,
            score: self.score as nat,
        }
    }
}

/// The predicate "this keyword stands in the lowercase form of the name".
pub open spec fn found_in(display_name: Seq<char>) -> spec_fn(Seq<char>) -> bool {
    |keyword: Seq<char>| is_substring(keyword, lowercase_of(display_name))
}

/// The score of a display name: how many of the keywords stand in its
/// lowercase form.
pub open spec fn match_score(keywords: Seq<Seq<char>>, display_name: Seq<char>) -> nat {
    keywords.filter(found_in(display_name)).len()
}

/// The score that an entry must reach: two, or one where there is exactly
/// one keyword.
pub open spec fn required_score(keywords: Seq<Seq<char>>) -> nat {
    if keywords.len() == 1 {
        1
    } else {
        2
    }
}

/// Whether a display name qualifies for the keywords.
pub open spec fn qualifies(keywords: Seq<Seq<char>>, display_name: Seq<char>) -> bool {
    match_score(keywords, display_name) >= required_score(keywords)
}

/// The command that an entry gives: the quiet one where it has one, else the
/// interactive one.
pub open spec fn entry_command(entry: UninstallEntryView) -> Option<Seq<char>> {
    if entry.quiet_uninstall is Some {
        entry.quiet_uninstall
    } else {
        entry.uninstall
    }
}

/// Whether an entry can be selected: it qualifies and has a command.
pub open spec fn is_candidate(keywords: Seq<Seq<char>>, entry: UninstallEntryView) -> bool {
    qualifies(keywords, entry.display_name) && entry_command(entry) is Some
}

/// Whether the entry at `best` is the one to select among the first `upto`
/// of `entries`: a candidate that none of them outscores and that every
/// earlier candidate scores below.
pub open spec fn is_best_among(
    keywords: Seq<Seq<char>>,
    entries: Seq<UninstallEntryView>,
    upto: int,
    best: int,
) -> bool {
    &&& 0 <= best < upto <= entries.len()
    &&& is_candidate(keywords, entries[best])
    &&& forall|j: int|
        0 <= j < upto && is_candidate(keywords, #[trigger] entries[j]) ==> {
            &&& match_score(keywords, entries[j].display_name) <= match_score(
                keywords,
                entries[best].display_name,
            )
            &&& j < best ==> match_score(keywords, entries[j].display_name) < match_score(
                keywords,
                entries[best].display_name,
            )
        }
}

/// Whether the entry at `best` is the one to select among all of `entries`.
pub open spec fn is_best_at(
    keywords: Seq<Seq<char>>,
    entries: Seq<UninstallEntryView>,
    best: int,
) -> bool {
    is_best_among(keywords, entries, entries.len() as int, best)
}

/// At most one entry is the one to select.
pub proof fn lemma_best_is_unique(
    keywords: Seq<Seq<char>>,
    entries: Seq<UninstallEntryView>,
    a: int,
    b: int,
)
    requires
        is_best_at(keywords, entries, a),
        is_best_at(keywords, entries, b),
    ensures
        a == b,
{
    assert(is_candidate(keywords, entries[a]));
    assert(is_candidate(keywords, entries[b]));
}

/// The candidate selected among `entries`: the highest-scoring candidate,
/// the earliest of them on a tie; none where no entry is a candidate.
pub open spec fn selected_candidate(
    keywords: Seq<Seq<char>>,
    entries: Seq<UninstallEntryView>,
) -> Option<UninstallCandidateView> {
    if exists|best: int| is_best_at(keywords, entries, best) {
        let best = choose|best: int| is_best_at(keywords, entries, best);
        Some(
            UninstallCandidateView {
                display_name: entries[best].display_name,
                raw_command: entry_command(entries[best])->0,
                score: match_score(keywords, entries[best].display_name),
            },
        )
    } else {
        None
    }
}

/// The uninstall command resolved for a product name among `entries`.
pub open spec fn uninstall_command_of(
    software_name: Seq<char>,
    entries: Seq<UninstallEntryView>,
) -> Option<Seq<char>> {
    match selected_candidate(keywords_of(software_name), entries) {
        Some(candidate) => Some(candidate.raw_command),
        None => None,
    }
}

/// With a single keyword, a display name qualifies as soon as its lowercase
/// form holds that keyword: a short name is not turned away for want of a
/// second match.
pub proof fn lemma_single_keyword_leniency(keyword: Seq<char>, display_name: Seq<char>)
    ensures
        qualifies(seq![keyword], display_name) <==> is_substring(
            keyword,
            lowercase_of(display_name),
        ),
{
    reveal(Seq::filter);
    let none = Seq::<Seq<char>>::empty();
    assert(seq![keyword] =~= none.push(keyword));
    none.lemma_filter_push(keyword, found_in(display_name));
    assert(none.filter(found_in(display_name)) =~= none);
}

/// With no keyword, or with several, a display name qualifies exactly when
/// two or more of the keywords stand in its lowercase form; a single match
/// is not enough.
pub proof fn lemma_score_threshold(keywords: Seq<Seq<char>>, display_name: Seq<char>)
    requires
        keywords.len() != 1,
    ensures
        qualifies(keywords, display_name) <==> match_score(keywords, display_name) >= 2,
        match_score(keywords, display_name) == 1 ==> !qualifies(keywords, display_name),
{
}

/// The selection returns a candidate exactly when some entry is one, and
/// the candidate that it returns is outscored by no entry that could have
/// been selected: a higher score wins over a lower one.
pub proof fn lemma_selection_takes_highest_score(
    keywords: Seq<Seq<char>>,
    entries: Seq<UninstallEntryView>,
)
    ensures
        selected_candidate(keywords, entries) is Some <==> exists|j: int|
            0 <= j < entries.len() && is_candidate(keywords, #[trigger] entries[j]),
        selected_candidate(keywords, entries) matches Some(selected) ==> {
            &&& selected.score >= required_score(keywords)
            &&& forall|j: int|
                0 <= j < entries.len() && is_candidate(keywords, #[trigger] entries[j])
                    ==> match_score(keywords, entries[j].display_name) <= selected.score
        },
{
    if exists|j: int| 0 <= j < entries.len() && is_candidate(keywords, #[trigger] entries[j]) {
        lemma_best_exists(keywords, entries, entries.len() as int);
        let found = choose|best: int|
            is_best_among(keywords, entries, entries.len() as int, best);
        assert(is_best_at(keywords, entries, found));
    }
    if exists|best: int| is_best_at(keywords, entries, best) {
        let best = choose|best: int| is_best_at(keywords, entries, best);
        assert(0 <= best < entries.len() && is_candidate(keywords, entries[best]));
    }
}

/// Where one of the first `upto` entries is a candidate, one of them is the
/// one to select.
pub proof fn lemma_best_exists(
    keywords: Seq<Seq<char>>,
    entries: Seq<UninstallEntryView>,
    upto: int,
)
    requires
        0 <= upto <= entries.len(),
        exists|j: int| 0 <= j < upto && is_candidate(keywords, #[trigger] entries[j]),
    ensures
        exists|best: int| is_best_among(keywords, entries, upto, best),
    decreases upto,
{
    let last = upto - 1;
    if exists|j: int| 0 <= j < last && is_candidate(keywords, #[trigger] entries[j]) {
        lemma_best_exists(keywords, entries, last);
        let before = choose|best: int| is_best_among(keywords, entries, last, best);
        if is_candidate(keywords, entries[last]) && match_score(
            keywords,
            entries[last].display_name,
        ) > match_score(keywords, entries[before].display_name) {
            assert(is_best_among(keywords, entries, upto, last));
        } else {
            assert(is_best_among(keywords, entries, upto, before));
        }
    } else {
        assert(is_candidate(keywords, entries[last]));
        assert(is_best_among(keywords, entries, upto, last));
    }
}

/// Counts the keywords that stand in the lowercase form of a display name.
pub fn score_display_name(keywords: &Vec<String>, display_name: &str) -> (score: usize)
    ensures
        score == match_score(texts_of(keywords@), display_name@),
{
    let lowered = display_name.to_lowercase();
    let hay = chars_of(lowered.as_str());
    let mut score: usize = 0;
    let mut i: usize = 0;
    proof {
        reveal(Seq::filter);
        assert(texts_of(keywords@).take(0) =~= Seq::<Seq<char>>::empty());
    }
    while i < keywords.len()
        invariant
            i <= keywords.len(),
            hay@ == lowercase_of(display_name@),
            score == texts_of(keywords@).take(i as int).filter(found_in(display_name@)).len(),
            score <= i,
        decreases keywords.len() - i,
    {
        let needle = chars_of(keywords[i].as_str());
        proof {
            let seen = texts_of(keywords@).take(i as int);
            assert(texts_of(keywords@).take(i + 1) == seen.push(needle@));
            seen.lemma_filter_push(needle@, found_in(display_name@));
        }
        if contains_chars(&hay, &needle) {
            score += 1;
        }
        i += 1;
    }
    assert(texts_of(keywords@).take(i as int) == texts_of(keywords@));
    score
}

/// Selects among `entries`, which stand in the order in which the registry
/// was walked, the entry to uninstall by: the highest-scoring one that
/// qualifies and has a command, the earliest of them on a tie.
pub fn select_candidate(keywords: &Vec<String>, entries: &Vec<UninstallEntry>) -> (selected:
    Option<UninstallCandidate>)
    ensures
        match selected {
            Some(candidate) => Some(candidate@),
            None => None,
        } == selected_candidate(texts_of(keywords@), entries_of(entries@)),
{
    let ghost keys = texts_of(keywords@);
    let ghost views = entries_of(entries@);
    let required: usize = if keywords.len() == 1 {
        1
    } else {
        2
    };
    let mut selected: Option<UninstallCandidate> = None;
    let ghost mut best: int = 0;
    let mut i: usize = 0;
    while i < entries.len()
        invariant
            i <= entries.len(),
            keys == texts_of(keywords@),
            views == entries_of(entries@),
            required == required_score(keys),
            match selected {
                Some(candidate) => {
                    &&& is_best_among(keys, views, i as int, best)
                    &&& candidate.display_name@ == views[best].display_name
                    &&& Some(candidate.raw_command@) == entry_command(views[best])
                    &&& candidate.score == match_score(keys, views[best].display_name)
                },
                None => forall|j: int| 0 <= j < i ==> !is_candidate(keys, #[trigger] views[j]),
            },
        decreases entries.len() - i,
    {
        let entry = &entries[i];
        assert(views[i as int] == entry@);
        let score = score_display_name(keywords, entry.display_name.as_str());
        let is_better = match &selected {
            None => true,
            Some(candidate) => score > candidate.score,
        };
        if score >= required && is_better {
            let command = match &entry.quiet_uninstall {
                Some(quiet) => Some(quiet.clone()),
                None => match &entry.uninstall {
                    Some(plain) => Some(plain.clone()),
                    None => None,
                },
            };
            if let Some(raw_command) = command {
                let display_name = entry.display_name.clone();
                selected = Some(UninstallCandidate { display_name, raw_command, score });
                proof {
                    best = i as int;
                }
            }
        }
        i += 1;
    }
    proof {
        if selected is Some {
            assert(is_best_at(keys, views, best));
            let chosen = choose|b: int| is_best_at(keys, views, b);
            lemma_best_is_unique(keys, views, chosen, best);
        } else {
            assert forall|b: int| !is_best_at(keys, views, b) by {
                if 0 <= b < views.len() {
                    assert(!is_candidate(keys, views[b]));
                }
            }
        }
    }
    selected
}

/// Resolves the uninstall command of a product from its free-text name:
/// the command of the entry that the name's keywords select, or nothing
/// where no entry qualifies.
pub fn find_uninstall_command(software_name: &str, entries: &Vec<UninstallEntry>) -> (command:
    Option<String>)
    ensures
        optional_text(command) == uninstall_command_of(software_name@, entries_of(entries@)),
{
    let keywords = extract_keywords(software_name);
    match select_candidate(&keywords, entries) {
        Some(candidate) => Some(candidate.raw_command),
        None => None,
    }
}

} // verus!

//! The search for a topic by a few of its letters.

use fuzzy_matcher::skim::SkimMatcherV2;
use fuzzy_matcher::FuzzyMatcher;
use vstd::prelude::*;
use crate::topics::{texts, TopicSet};

verus! {

/// Lets `fuzzy_matcher::skim::SkimMatcherV2` stand in a field. Nothing is
/// known of what is inside one.
#[verifier::external_type_specification]
#[verifier::external_body]
pub struct ExSkimMatcherV2(SkimMatcherV2);

/// Whether `matcher` has the settings that `SkimMatcherV2::default` gives
/// one: how it scores, how it treats case, and no limit on what it looks at.
pub uninterp spec fn skim_is_default(matcher: SkimMatcherV2) -> bool;

/// `SkimMatcherV2::default` makes a matcher with the default settings.
pub assume_specification[ <SkimMatcherV2 as Default>::default ]() -> (matcher: SkimMatcherV2)
    ensures
        skim_is_default(matcher),
;

/// Scores topics against a query, with a skim matcher that has the default
/// settings.
pub struct Matcher {
    matcher: SkimMatcherV2,
}

/// A topic that matched, with its score.
pub type Scored = (i64, Seq<char>);

/// Whether `c` is one of the capital letters `A` to `Z`.
pub open spec fn is_ascii_upper(c: char) -> bool {
    0x41 <= c as u32 <= 0x5a
}

/// Whether the skim matcher takes `a` and `b` for the same character. Where
/// it is not `exact`, a capital letter `A` to `Z` and its small letter are
/// the same.
pub open spec fn same_char(a: char, b: char, exact: bool) -> bool {
    ||| a == b
    ||| !exact && is_ascii_upper(a) && b as u32 == a as u32 + 32
    ||| !exact && is_ascii_upper(b) && a as u32 == b as u32 + 32
}

/// Whether `text` holds a capital letter `A` to `Z`.
pub open spec fn has_upper(text: Seq<char>) -> bool {
    exists|i: int| 0 <= i < text.len() && is_ascii_upper(#[trigger] text[i])
}

/// Whether the characters of `pattern` occur in `choice` in their order,
/// each looked for from where the one before was found.
pub open spec fn in_order(choice: Seq<char>, pattern: Seq<char>, exact: bool) -> bool
    decreases choice.len(),
{
    if pattern.len() == 0 {
        true
    } else if choice.len() == 0 {
        false
    } else if same_char(choice[0], pattern[0], exact) {
        in_order(choice.drop_first(), pattern.drop_first(), exact)
    } else {
        in_order(choice.drop_first(), pattern, exact)
    }
}

/// Whether a skim matcher with the default settings finds `pattern` in
/// `choice`: the characters of the pattern occur in the choice in their
/// order. Capital and small letters count as the same unless the pattern
/// holds a capital letter.
pub open spec fn skim_matches(choice: Seq<char>, pattern: Seq<char>) -> bool {
    in_order(choice, pattern, has_upper(pattern))
}

/// Whether `scores` can be what a skim matcher with the default settings
/// gives to each of `items` for `query`: an item has a score exactly if it
/// matches, and for an empty query the score is zero.
pub open spec fn scores_fit(
    items: Seq<Seq<char>>,
    query: Seq<char>,
    scores: Seq<Option<i64>>,
) -> bool {
    &&& scores.len() == items.len()
    &&& forall|i: int|
        0 <= i < items.len() ==> ((#[trigger] scores[i]) is Some <==> skim_matches(
            items[i],
            query,
        ))
    &&& query.len() == 0 ==> forall|i: int|
        0 <= i < items.len() ==> #[trigger] scores[i] == Some(0i64)
}

/// Those of `items` that have a score in `scores`, each with it, in the
/// order of `items`.
pub open spec fn kept(items: Seq<Seq<char>>, scores: Seq<Option<i64>>) -> Seq<Scored>
    recommends
        scores.len() == items.len(),
    decreases items.len(),
{
    if items.len() == 0 || scores.len() == 0 {
        Seq::empty()
    } else {
        let before = kept(items.drop_last(), scores.drop_last());
        match scores.last() {
            Some(score) => before.push((score, items.last())),
            None => before,
        }
    }
}

/// The topics of `entries`, in order.
pub open spec fn names_of(entries: Seq<Scored>) -> Seq<Seq<char>> {
    Seq::new(entries.len(), |i: int| entries[i].1)
}

/// Whether `matches` can be what a search among `items` for `query` lists:
/// the items that match, the best first by the scores the matcher gave.
pub open spec fn ranks(items: Seq<Seq<char>>, query: Seq<char>, matches: Seq<Scored>) -> bool {
    exists|scores: Seq<Option<i64>>| #[trigger]
        scores_fit(items, query, scores) && matches == ranked(kept(items, scores))
}

/// The number of entries at the front of `ranked` whose score is at least
/// `score`.
pub open spec fn rank_of(ranked: Seq<Scored>, score: i64) -> int
    decreases ranked.len(),
{
    if ranked.len() == 0 || ranked[0].0 < score {
        0
    } else {
        1 + rank_of(ranked.drop_first(), score)
    }
}

/// `entries` with the highest score first; entries of one score keep the
/// order they had.
pub open spec fn ranked(entries: Seq<Scored>) -> Seq<Scored>
    decreases entries.len(),
{
    if entries.len() == 0 {
        Seq::empty()
    } else {
        let before = ranked(entries.drop_last());
        before.insert(rank_of(before, entries.last().0), entries.last())
    }
}

/// Whether no entry of `entries` has a lower score than one after it.
pub open spec fn descending(entries: Seq<Scored>) -> bool {
    forall|i: int, j: int| 0 <= i < j < entries.len() ==> entries[i].0 >= entries[j].0
}

/// What `rank_of` counts: in a descending sequence, the entries before the
/// rank have at least the score, and those from the rank on have less.
pub proof fn lemma_rank_of(entries: Seq<Scored>, score: i64)
    requires
        descending(entries),
    ensures
        0 <= rank_of(entries, score) <= entries.len(),
        forall|i: int| 0 <= i < rank_of(entries, score) ==> entries[i].0 >= score,
        forall|i: int| rank_of(entries, score) <= i < entries.len() ==> entries[i].0 < score,
    decreases entries.len(),
{
    if entries.len() == 0 || entries[0].0 < score {
    } else {
        let rest = entries.drop_first();
        assert forall|i: int, j: int| 0 <= i < j < rest.len() implies rest[i].0 >= rest[j].0 by {
            assert(rest[i] == entries[i + 1] && rest[j] == entries[j + 1]);
        }
        lemma_rank_of(rest, score);
        assert forall|i: int| 0 <= i < rank_of(entries, score) implies entries[i].0 >= score by {
            if i > 0 {
                assert(entries[i] == rest[i - 1]);
            }
        }
        assert forall|i: int| rank_of(entries, score) <= i < entries.len() implies entries[i].0
            < score by {
            assert(entries[i] == rest[i - 1]);
        }
    }
}

/// Ranking puts the highest score first.
pub proof fn lemma_ranked_descending(entries: Seq<Scored>)
    ensures
        descending(ranked(entries)),
    decreases entries.len(),
{
    if entries.len() > 0 {
        let before = ranked(entries.drop_last());
        lemma_ranked_descending(entries.drop_last());
        lemma_rank_of(before, entries.last().0);
    }
}

/// Ranking neither drops nor adds an entry.
pub proof fn lemma_ranked_same_entries(entries: Seq<Scored>)
    ensures
        ranked(entries).to_multiset() == entries.to_multiset(),
        ranked(entries).len() == entries.len(),
    decreases entries.len(),
{
    if entries.len() == 0 {
        assert(entries =~= Seq::<Scored>::empty());
    } else {
        let before = ranked(entries.drop_last());
        let last = entries.last();
        lemma_ranked_same_entries(entries.drop_last());
        lemma_ranked_descending(entries.drop_last());
        lemma_rank_of(before, last.0);
        vstd::seq_lib::to_multiset_insert(before, rank_of(before, last.0), last);
        assert(entries =~= entries.drop_last().push(last));
        vstd::seq_lib::to_multiset_build(entries.drop_last(), last);
        let rank = rank_of(before, last.0);
        assert(ranked(entries) == before.insert(rank, last));
        assert(before.insert(rank, last).to_multiset() == before.to_multiset().insert(last));
        assert(entries.drop_last().push(last).to_multiset() == entries.drop_last().to_multiset().insert(
            last,
        ));
        assert(entries.to_multiset() == entries.drop_last().push(last).to_multiset());
    }
}

/// In a descending sequence only the rank of `score` has at least `score`
/// everywhere before it and less than `score` at it.
proof fn lemma_rank_is(entries: Seq<Scored>, score: i64, k: int)
    requires
        descending(entries),
        0 <= k <= entries.len(),
        forall|i: int| 0 <= i < k ==> entries[i].0 >= score,
        k < entries.len() ==> entries[k].0 < score,
    ensures
        k == rank_of(entries, score),
{
    lemma_rank_of(entries, score);
    let rank = rank_of(entries, score);
    if k < rank {
        assert(entries[k].0 >= score);
    } else if rank < k {
        assert(entries[rank].0 < score);
    }
}

/// What a list of matches says: each score, with the text of its topic.
pub open spec fn entries_of(matches: Seq<(i64, &String)>) -> Seq<Scored> {
    Seq::new(matches.len(), |i: int| (matches[i].0, matches[i].1@))
}

impl Matcher {
    #[verifier::type_invariant]
    spec fn well_formed(self) -> bool {
        skim_is_default(self.matcher)
    }

    /// Whether the skim matcher in this one has the default settings.
    pub closed spec fn has_default_settings(self) -> bool {
        skim_is_default(self.matcher)
    }

    /// A matcher with the settings of the skim matcher's default.
    pub fn new() -> (matcher: Matcher)
        ensures
            matcher.has_default_settings(),
    {
        Matcher { matcher: SkimMatcherV2::default() }
    }

    /// The score of `item` for `query`, if `item` matches.
    ///
    /// This is `fuzzy_match` of `SkimMatcherV2`. With the default settings it
    /// answers at once with zero for an empty query, and gives a score
    /// exactly if the characters of the query occur in the item in their
    /// order. Nothing is claimed of the score itself: it also depends on
    /// what the matcher was asked before.
    #[verifier::external_body]
    fn score(&self, item: &str, query: &str) -> (score: Option<i64>)
        requires
            self.has_default_settings(),
        ensures
            score is Some <==> skim_matches(item@, query@),
            query@.len() == 0 ==> score == Some(0i64),
    {
        self.matcher.fuzzy_match(item, query)
    }

    /// Those of `items` that match `query`, the best match first by the
    /// score the matcher gives each. Items that match equally well stay in
    /// the order of `items`.
    pub fn match_items<'a>(&self, query: &str, items: &'a [String]) -> (matches: Vec<
        (i64, &'a String),
    >)
        ensures
            ranks(texts(items@), query@, entries_of(matches@)),
            matches@.len() <= items@.len(),
            query@.len() == 0 ==> entries_of(matches@) == zero_scored(texts(items@)),
    {
        proof {
            use_type_invariant(self);
        }
        let mut scores: Vec<Option<i64>> = Vec::new();
        let mut i: usize = 0;
        while i < items.len()
            invariant
                self.has_default_settings(),
                i <= items@.len(),
                scores@.len() == i,
                forall|j: int|
                    0 <= j < i ==> ((#[trigger] scores@[j]) is Some <==> skim_matches(
                        items@[j]@,
                        query@,
                    )),
                query@.len() == 0 ==> forall|j: int|
                    0 <= j < i ==> #[trigger] scores@[j] == Some(0i64),
            decreases items@.len() - i,
        {
            scores.push(self.score(items[i].as_str(), query));
            i += 1;
        }
        let matches = rank_items(&scores, items);
        proof {
            assert(scores_fit(texts(items@), query@, scores@));
            lemma_kept_len(texts(items@), scores@);
            lemma_ranked_same_entries(kept(texts(items@), scores@));
            if query@.len() == 0 {
                lemma_zero_scores_keep_all(texts(items@), scores@);
            }
        }
        matches
    }
}

/// Every one of `items`, in order, with the score zero.
pub open spec fn zero_scored(items: Seq<Seq<char>>) -> Seq<Scored> {
    Seq::new(items.len(), |i: int| (0i64, items[i]))
}

/// Where every item has the score zero, ranking keeps them all in their
/// order.
pub proof fn lemma_zero_scores_keep_all(items: Seq<Seq<char>>, scores: Seq<Option<i64>>)
    requires
        scores.len() == items.len(),
        forall|i: int| 0 <= i < items.len() ==> #[trigger] scores[i] == Some(0i64),
    ensures
        ranked(kept(items, scores)) == zero_scored(items),
    decreases items.len(),
{
    if items.len() == 0 {
        assert(zero_scored(items) =~= Seq::<Scored>::empty());
    } else {
        let fewer = items.drop_last();
        let entry = (0i64, items.last());
        lemma_zero_scores_keep_all(fewer, scores.drop_last());
        let found = kept(fewer, scores.drop_last());
        assert(scores.last() == Some(0i64));
        assert(kept(items, scores) == found.push(entry));
        assert(found.push(entry).drop_last() =~= found);
        lemma_rank_is(zero_scored(fewer), 0, fewer.len() as int);
        assert(zero_scored(fewer).insert(fewer.len() as int, entry) =~= zero_scored(items));
    }
}

/// An entry is kept exactly if it is an item with the score it has.
pub proof fn lemma_kept_contains(items: Seq<Seq<char>>, scores: Seq<Option<i64>>, entry: Scored)
    requires
        scores.len() == items.len(),
    ensures
        kept(items, scores).contains(entry) <==> exists|i: int|
            0 <= i < items.len() && #[trigger] scores[i] == Some(entry.0) && items[i] == entry.1,
    decreases items.len(),
{
    if items.len() == 0 {
    } else {
        let fewer = items.drop_last();
        let given = scores.drop_last();
        let found = kept(fewer, given);
        lemma_kept_contains(fewer, given, entry);
        let last = items.len() - 1;
        if kept(items, scores).contains(entry) {
            let k = choose|k: int| 0 <= k < kept(items, scores).len() && kept(items, scores)[k] == entry;
            if k < found.len() {
                assert(found[k] == entry);
                assert(found.contains(entry));
                let i = choose|i: int|
                    0 <= i < fewer.len() && #[trigger] given[i] == Some(entry.0) && fewer[i]
                        == entry.1;
                assert(scores[i] == Some(entry.0) && items[i] == entry.1);
            } else {
                assert(scores[last] == Some(entry.0) && items[last] == entry.1);
            }
        }
        if exists|i: int|
            0 <= i < items.len() && #[trigger] scores[i] == Some(entry.0) && items[i] == entry.1 {
            let i = choose|i: int|
                0 <= i < items.len() && #[trigger] scores[i] == Some(entry.0) && items[i]
                    == entry.1;
            if i < last {
                assert(given[i] == Some(entry.0) && fewer[i] == entry.1);
                assert(found.contains(entry));
                let k = choose|k: int| 0 <= k < found.len() && found[k] == entry;
                assert(kept(items, scores)[k] == entry);
            } else {
                assert(kept(items, scores) == found.push(entry));
                assert(kept(items, scores)[found.len() as int] == entry);
            }
        }
    }
}

/// What a search lists are the items that match, and no others.
pub proof fn lemma_ranks_lists_matches(
    items: Seq<Seq<char>>,
    query: Seq<char>,
    found: Seq<Scored>,
    name: Seq<char>,
)
    requires
        ranks(items, query, found),
    ensures
        names_of(found).contains(name) <==> items.contains(name) && skim_matches(name, query),
{
    let scores = choose|scores: Seq<Option<i64>>| #[trigger]
        scores_fit(items, query, scores) && found == ranked(kept(items, scores));
    let all = kept(items, scores);
    lemma_ranked_same_entries(all);
    assert forall|entry: Scored| found.contains(entry) <==> all.contains(entry) by {
        vstd::seq_lib::to_multiset_contains(found, entry);
        vstd::seq_lib::to_multiset_contains(all, entry);
    }
    if names_of(found).contains(name) {
        let k = choose|k: int| 0 <= k < names_of(found).len() && names_of(found)[k] == name;
        assert(found.contains(found[k]));
        lemma_kept_contains(items, scores, found[k]);
        let i = choose|i: int|
            0 <= i < items.len() && #[trigger] scores[i] == Some(found[k].0) && items[i]
                == found[k].1;
        assert(items.contains(name));
        assert(scores[i] is Some);
    }
    if items.contains(name) && skim_matches(name, query) {
        let i = choose|i: int| 0 <= i < items.len() && items[i] == name;
        assert(scores[i] is Some);
        let entry = (scores[i]->0, name);
        lemma_kept_contains(items, scores, entry);
        assert(all.contains(entry));
        assert(found.contains(entry));
        let k = choose|k: int| 0 <= k < found.len() && found[k] == entry;
        assert(names_of(found)[k] == name);
    }
}

/// No more items are kept than there are.
pub proof fn lemma_kept_len(items: Seq<Seq<char>>, scores: Seq<Option<i64>>)
    ensures
        kept(items, scores).len() <= items.len(),
    decreases items.len(),
{
    if items.len() > 0 && scores.len() > 0 {
        lemma_kept_len(items.drop_last(), scores.drop_last());
    }
}

/// Those of `items` that have a score in `scores`, the highest score first.
/// Items of one score stay in the order of `items`.
pub fn rank_items<'a>(scores: &Vec<Option<i64>>, items: &'a [String]) -> (matches: Vec<
    (i64, &'a String),
>)
    requires
        scores@.len() == items@.len(),
    ensures
        entries_of(matches@) == ranked(kept(texts(items@), scores@)),
{
    let mut matches: Vec<(i64, &'a String)> = Vec::new();
    let mut i: usize = 0;
    assert(texts(items@).take(0) =~= Seq::<Seq<char>>::empty());
    assert(entries_of(matches@) =~= Seq::<Scored>::empty());
    while i < items.len()
        invariant
            scores@.len() == items@.len(),
            i <= items@.len(),
            entries_of(matches@) == ranked(
                kept(texts(items@).take(i as int), scores@.take(i as int)),
            ),
        decreases items@.len() - i,
    {
        let ghost seen = texts(items@).take(i as int);
        let ghost given = scores@.take(i as int);
        let ghost entries = entries_of(matches@);
        proof {
            assert(texts(items@).take(i as int + 1).drop_last() =~= seen);
            assert(texts(items@).take(i as int + 1).last() == items@[i as int]@);
            assert(scores@.take(i as int + 1).drop_last() =~= given);
            assert(scores@.take(i as int + 1).last() == scores@[i as int]);
            lemma_ranked_descending(kept(seen, given));
        }
        match scores[i] {
            Some(score) => {
                let mut k: usize = 0;
                while k < matches.len() && matches[k].0 >= score
                    invariant
                        k <= matches@.len(),
                        entries == entries_of(matches@),
                        forall|j: int| 0 <= j < k ==> entries[j].0 >= score,
                    decreases matches@.len() - k,
                {
                    k += 1;
                }
                proof {
                    lemma_rank_is(entries, score, k as int);
                    let found = kept(seen, given);
                    let entry = (score, items@[i as int]@);
                    assert(found.push(entry).drop_last() =~= found);
                    assert(kept(texts(items@).take(i as int + 1), scores@.take(i as int + 1))
                        == found.push(entry));
                }
                matches.insert(k, (score, &items[i]));
                assert(entries_of(matches@) =~= entries.insert(
                    k as int,
                    (score, items@[i as int]@),
                ));
            },
            None => {
                assert(kept(texts(items@).take(i as int + 1), scores@.take(i as int + 1))
                    == kept(seen, given));
            },
        }
        i += 1;
    }
    assert(texts(items@).take(i as int) =~= texts(items@));
    assert(scores@.take(i as int) =~= scores@);
    matches
}

/// The search: what was typed, what matches it, and which match is chosen.
pub struct FuzzySearch {
    /// What was typed.
    pub input: String,
    /// Scores the topics against what was typed.
    pub matcher: Matcher,
    /// The topics that match, the best first.
    pub matches: Vec<String>,
    /// The index of the chosen match.
    pub selected_index: usize,
    /// The index that the list shows as chosen, if it shows one.
    pub list_selected: Option<usize>,
}

/// Whether `matches` can be the topics a search shows for `input`: all of
/// `topics` while nothing is typed, else those that match, the best first.
pub open spec fn shown(topics: Seq<Seq<char>>, input: Seq<char>, matches: Seq<Seq<char>>) -> bool {
    if input.len() == 0 {
        matches == topics
    } else {
        exists|found: Seq<Scored>| #[trigger]
            ranks(topics, input, found) && matches == names_of(found)
    }
}

/// The index that a move by `offset` leads to from `current`, among `len`
/// matches. A step back from the first match leads to the last one; steps
/// forward wrap round.
pub open spec fn moved(current: int, offset: int, len: int) -> int
    recommends
        len > 0,
{
    if offset < 0 {
        if current == 0 {
            len - 1
        } else {
            current + offset
        }
    } else {
        (current + offset) % len
    }
}

/// The choice that is kept among `len` matches when it was `chosen`: the
/// first match where there are none, the last one where it was beyond them.
pub open spec fn kept_choice(chosen: usize, len: nat) -> usize {
    if len == 0 {
        0
    } else if chosen >= len {
        (len - 1) as usize
    } else {
        chosen
    }
}

impl FuzzySearch {
    /// Whether `after` is this search once `input` is what was typed and the
    /// matches were looked up among `topics`.
    pub open spec fn shows(self, input: Seq<char>, topics: Seq<Seq<char>>, after: FuzzySearch) -> bool {
        &&& after.input@ == input
        &&& after.matcher == self.matcher
        &&& shown(topics, input, texts(after.matches@))
        &&& after.selected_index == kept_choice(self.selected_index, after.matches@.len())
        &&& after.list_selected == if after.matches@.len() == 0 {
            None
        } else {
            Some(after.selected_index)
        }
    }

    /// Whether the choice can move by `offset`: a move back from a match
    /// other than the first does not go beyond the first.
    pub open spec fn can_move(self, offset: int) -> bool {
        self.matches@.len() > 0 && offset < 0 && self.selected_index > 0 ==> -offset
            <= self.selected_index
    }

    /// This search with the choice moved by `offset` matches.
    pub open spec fn with_choice_moved(self, offset: int) -> FuzzySearch {
        if self.matches@.len() == 0 {
            self
        } else {
            let index = moved(self.selected_index as int, offset, self.matches@.len() as int);
            FuzzySearch {
                selected_index: index as usize,
                list_selected: Some(index as usize),
                ..self
            }
        }
    }

    /// Whether `after` is this search with nothing typed.
    pub open spec fn cleared(self, after: FuzzySearch) -> bool {
        &&& after.input@ == Seq::<char>::empty()
        &&& after.matcher == self.matcher
        &&& after.matches == self.matches
        &&& after.selected_index == self.selected_index
        &&& after.list_selected == self.list_selected
    }

    /// The chosen match, if the choice is one of the matches.
    pub open spec fn spec_selected(self) -> Option<String> {
        if self.selected_index < self.matches@.len() {
            Some(self.matches@[self.selected_index as int])
        } else {
            None
        }
    }

    /// A search in which nothing was typed yet.
    pub fn new() -> (search: FuzzySearch)
        ensures
            search.input@ == Seq::<char>::empty(),
            search.matches@ == Seq::<String>::empty(),
            search.selected_index == 0,
            search.list_selected == Some(0usize),
    {
        FuzzySearch {
            input: String::new(),
            matcher: Matcher::new(),
            matches: Vec::new(),
            selected_index: 0,
            list_selected: Some(0),
        }
    }

    /// Looks the matches up again among `available_topics`, and keeps the
    /// choice within them.
    pub fn update_matches(&mut self, available_topics: &TopicSet)
        ensures
            final(self).input == old(self).input,
            old(self).shows(old(self).input@, available_topics@, *final(self)),
    {
        let names = available_topics.names();
        let mut matches: Vec<String> = Vec::new();
        if self.input.as_str().is_empty() {
            let mut i: usize = 0;
            while i < names.len()
                invariant
                    i <= names@.len(),
                    matches@.len() == i,
                    texts(matches@) == texts(names@).take(i as int),
                decreases names@.len() - i,
            {
                let ghost shown_before = texts(matches@);
                matches.push(names[i].clone());
                assert forall|j: int| 0 <= j <= i implies texts(matches@)[j] == texts(names@)[j] by {
                    if j < i {
                        assert(shown_before[j] == texts(names@).take(i as int)[j]);
                    }
                }
                assert(texts(matches@) =~= texts(names@).take(i as int + 1));
                i += 1;
            }
            assert(texts(names@).take(i as int) =~= texts(names@));
        } else {
            let found = self.matcher.match_items(self.input.as_str(), names.as_slice());
            let ghost entries = entries_of(found@);
            let mut i: usize = 0;
            while i < found.len()
                invariant
                    i <= found@.len(),
                    entries == entries_of(found@),
                    matches@.len() == i,
                    texts(matches@) == names_of(entries).take(i as int),
                decreases found@.len() - i,
            {
                let ghost shown_before = texts(matches@);
                matches.push(found[i].1.clone());
                assert forall|j: int| 0 <= j <= i implies texts(matches@)[j] == entries[j].1 by {
                    if j < i {
                        assert(shown_before[j] == entries[j].1);
                    }
                }
                assert(texts(matches@) =~= names_of(entries).take(i as int + 1));
                i += 1;
            }
            assert(names_of(entries).take(i as int) =~= names_of(entries));
            assert(ranks(texts(names@), self.input@, entries));
        }
        self.matches = matches;
        if self.matches.len() == 0 {
            self.selected_index = 0;
            self.list_selected = None;
        } else {
            if self.selected_index >= self.matches.len() {
                self.selected_index = self.matches.len() - 1;
            }
            self.list_selected = Some(self.selected_index);
        }
    }

    /// The chosen match, if the choice is one of the matches.
    pub fn get_selected(&self) -> (selected: Option<&String>)
        ensures
            match selected {
                Some(topic) => self.spec_selected() == Some(*topic),
                None => self.spec_selected() is None,
            },
    {
        if self.selected_index < self.matches.len() {
            Some(&self.matches[self.selected_index])
        } else {
            None
        }
    }

    /// Moves the choice by `offset` matches. Without matches nothing moves.
    pub fn move_selection(&mut self, offset: isize)
        requires
            old(self).can_move(offset as int),
        ensures
            *final(self) == old(self).with_choice_moved(offset as int),
    {
        if self.matches.len() == 0 {
            return ;
        }
        let len = self.matches.len();
        let current = self.selected_index;
        let new_index = if offset < 0 {
            if current == 0 {
                len - 1
            } else {
                let back: i128 = -(offset as i128);
                (current as i128 - back) as usize
            }
        } else {
            let sum: u128 = current as u128 + offset as u128;
            (sum % (len as u128)) as usize
        };
        self.selected_index = new_index;
        self.list_selected = Some(new_index);
    }
}

} // verus!

//! What is known of the server's topics: their names, and the last value
//! that was received of each.
//!
//! Both are kept in vectors, the names in ascending order and the values by
//! distinct topics. Of a hash set or a hash map keyed by `String` nothing
//! could be proved: vstd gives no key model for `String`.

use vstd::prelude::*;
use crate::text::{
    is_before,
    lemma_text_before_irreflexive,
    lemma_text_before_total,
    lemma_text_before_transitive,
    same_text,
    text_before,
};

verus! {

/// The text of each of `names`, in order.
pub open spec fn texts(names: Seq<String>) -> Seq<Seq<char>> {
    Seq::new(names.len(), |i: int| names[i]@)
}

/// Whether each of `names` comes before the next, so that none occurs twice.
pub open spec fn ascending(names: Seq<Seq<char>>) -> bool {
    forall|i: int, j: int| 0 <= i < j < names.len() ==> text_before(names[i], names[j])
}

/// The names of the topics that were seen: each once, in ascending order.
#[derive(Debug)]
pub struct TopicSet {
    names: Vec<String>,
}

impl View for TopicSet {
    type V = Seq<Seq<char>>;

    closed spec fn view(&self) -> Seq<Seq<char>> {
        texts(self.names@)
    }
}

impl Clone for TopicSet {
    fn clone(&self) -> (copy: TopicSet)
        ensures
            copy@ == self@,
    {
        proof {
            use_type_invariant(self);
        }
        let names = self.names.clone();
        assert(texts(names@) =~= texts(self.names@));
        TopicSet { names }
    }
}

impl TopicSet {
    #[verifier::type_invariant]
    spec fn well_formed(self) -> bool {
        ascending(texts(self.names@))
    }

    /// No topic.
    pub fn new() -> (topics: TopicSet)
        ensures
            topics@ == Seq::<Seq<char>>::empty(),
    {
        let topics = TopicSet { names: Vec::new() };
        assert(topics@ =~= Seq::<Seq<char>>::empty());
        topics
    }

    /// The number of topics.
    pub fn len(&self) -> (count: usize)
        ensures
            count == self@.len(),
    {
        self.names.len()
    }

    /// The names, in ascending order.
    pub fn names(&self) -> (names: &Vec<String>)
        ensures
            texts(names@) == self@,
            ascending(self@),
    {
        proof {
            use_type_invariant(self);
        }
        &self.names
    }

    /// Whether `name` is one of the topics.
    pub fn contains(&self, name: &str) -> (found: bool)
        ensures
            found == self@.contains(name@),
    {
        let mut i: usize = 0;
        while i < self.names.len()
            invariant
                i <= self.names@.len(),
                forall|j: int| 0 <= j < i ==> self@[j] != name@,
            decreases self.names@.len() - i,
        {
            if same_text(self.names[i].as_str(), name) {
                assert(self@[i as int] == name@);
                return true;
            }
            i += 1;
        }
        false
    }

    /// Adds `name` to the topics, and says whether it was new.
    pub fn insert(&mut self, name: String) -> (added: bool)
        ensures
            added == !old(self)@.contains(name@),
            final(self)@.to_set() == old(self)@.to_set().insert(name@),
            ascending(final(self)@),
            !added ==> final(self)@ == old(self)@,
            added ==> final(self)@.len() == old(self)@.len() + 1,
    {
        proof {
            use_type_invariant(&*self);
        }
        let ghost before = self@;
        let mut i: usize = 0;
        while i < self.names.len() && is_before(self.names[i].as_str(), name.as_str())
            invariant
                self@ == before,
                i <= self.names@.len(),
                forall|j: int| 0 <= j < i ==> text_before(before[j], name@),
            decreases self.names@.len() - i,
        {
            i += 1;
        }
        if i < self.names.len() && self.names[i] == name {
            assert(before[i as int] == name@);
            assert(before.to_set().insert(name@) =~= before.to_set());
            return false;
        }
        proof {
            assert forall|j: int| i <= j < before.len() implies text_before(name@, before[j]) by {
                lemma_text_before_total(before[i as int], name@);
                if i < j {
                    lemma_text_before_transitive(name@, before[i as int], before[j]);
                }
            }
            assert forall|j: int| 0 <= j < before.len() implies before[j] != name@ by {
                lemma_text_before_irreflexive(name@);
            }
        }
        let mut names: Vec<String> = Vec::new();
        std::mem::swap(&mut self.names, &mut names);
        names.insert(i, name);
        proof {
            let after = texts(names@);
            assert(after =~= before.insert(i as int, name@));
            assert(after.to_set() =~= before.to_set().insert(name@)) by {
                assert forall|t: Seq<char>| after.contains(t) <==> (before.contains(t) || t
                    == name@) by {
                    if after.contains(t) {
                        let k = choose|k: int| 0 <= k < after.len() && after[k] == t;
                        if k < i {
                            assert(before[k] == t);
                        } else if k > i {
                            assert(before[k - 1] == t);
                        }
                    }
                    if before.contains(t) {
                        let k = choose|k: int| 0 <= k < before.len() && before[k] == t;
                        if k < i {
                            assert(after[k] == t);
                        } else {
                            assert(after[k + 1] == t);
                        }
                    }
                    if t == name@ {
                        assert(after[i as int] == t);
                    }
                }
            }
        }
        self.names = names;
        true
    }
}

/// Whether no two of `entries` have the same key.
pub open spec fn distinct_keys(entries: Seq<(String, String)>) -> bool {
    forall|i: int, j: int|
        0 <= i < entries.len() && 0 <= j < entries.len() && entries[i].0@ == entries[j].0@ ==> i
            == j
}

/// Whether `entries` has `key` at the index `i`.
pub open spec fn key_at(entries: Seq<(String, String)>, key: Seq<char>, i: int) -> bool {
    0 <= i < entries.len() && entries[i].0@ == key
}

/// The values that `entries` holds, by their keys.
pub open spec fn values_of(entries: Seq<(String, String)>) -> Map<Seq<char>, Seq<char>> {
    Map::new(
        |key: Seq<char>| exists|i: int| key_at(entries, key, i),
        |key: Seq<char>| entries[choose|i: int| key_at(entries, key, i)].1@,
    )
}

/// The last value that was received of each topic.
#[derive(Debug)]
pub struct TopicValues {
    entries: Vec<(String, String)>,
}

impl View for TopicValues {
    type V = Map<Seq<char>, Seq<char>>;

    closed spec fn view(&self) -> Map<Seq<char>, Seq<char>> {
        values_of(self.entries@)
    }
}

impl TopicValues {
    #[verifier::type_invariant]
    spec fn well_formed(self) -> bool {
        distinct_keys(self.entries@)
    }

    /// No value.
    pub fn new() -> (values: TopicValues)
        ensures
            values@ == Map::<Seq<char>, Seq<char>>::empty(),
    {
        let values = TopicValues { entries: Vec::new() };
        assert(values@ =~= Map::<Seq<char>, Seq<char>>::empty());
        values
    }

    /// The index at which `topic` is held, if it is.
    fn position(&self, topic: &str) -> (found: Option<usize>)
        ensures
            match found {
                Some(i) => key_at(self.entries@, topic@, i as int),
                None => forall|i: int| !key_at(self.entries@, topic@, i),
            },
    {
        let mut i: usize = 0;
        while i < self.entries.len()
            invariant
                i <= self.entries@.len(),
                forall|j: int| 0 <= j < i ==> !key_at(self.entries@, topic@, j),
            decreases self.entries@.len() - i,
        {
            if same_text(self.entries[i].0.as_str(), topic) {
                return Some(i);
            }
            i += 1;
        }
        None
    }

    /// The last value of `topic`, if one was received.
    pub fn get(&self, topic: &str) -> (value: Option<&String>)
        ensures
            match value {
                Some(value) => self@.contains_key(topic@) && self@[topic@] == value@,
                None => !self@.contains_key(topic@),
            },
    {
        proof {
            use_type_invariant(self);
        }
        match self.position(topic) {
            Some(i) => Some(&self.entries[i].1),
            None => None,
        }
    }

    /// Keeps `value` as the last value of `topic`.
    pub fn insert(&mut self, topic: String, value: String)
        ensures
            final(self)@ == old(self)@.insert(topic@, value@),
    {
        proof {
            use_type_invariant(&*self);
        }
        let ghost before = self.entries@;
        let found = self.position(topic.as_str());
        let mut entries: Vec<(String, String)> = Vec::new();
        std::mem::swap(&mut self.entries, &mut entries);
        match found {
            Some(i) => {
                entries.set(i, (topic, value));
                proof {
                    let after = entries@;
                    assert forall|key: Seq<char>, j: int| key_at(after, key, j) <==> key_at(
                        before,
                        key,
                        j,
                    ) by {}
                }
            },
            None => {
                entries.push((topic, value));
                proof {
                    let after = entries@;
                    assert forall|key: Seq<char>, j: int| key_at(after, key, j) <==> (key_at(
                        before,
                        key,
                        j,
                    ) || (key == topic@ && j == before.len())) by {}
                }
            },
        }
        proof {
            let after = entries@;
            let i = match found {
                Some(i) => i as int,
                None => before.len() as int,
            };
            assert(key_at(after, topic@, i));
            assert forall|key: Seq<char>| #[trigger]
                values_of(after).dom().contains(key) <==> values_of(before).insert(
                    topic@,
                    value@,
                ).dom().contains(key) by {
                if exists|j: int| key_at(before, key, j) {
                    let j = choose|j: int| key_at(before, key, j);
                    assert(key_at(after, key, j));
                }
            }
            assert forall|key: Seq<char>| #[trigger]
                values_of(after).dom().contains(key) implies values_of(after)[key] == values_of(
                before,
            ).insert(topic@, value@)[key] by {
                let j = choose|j: int| key_at(after, key, j);
                assert(key_at(after, key, j));
                if key != topic@ {
                    assert(key_at(before, key, j));
                    let k = choose|k: int| key_at(before, key, k);
                    assert(key_at(before, key, k));
                }
            }
            assert(values_of(after) =~= values_of(before).insert(topic@, value@));
            assert forall|a: int, b: int|
                0 <= a < after.len() && 0 <= b < after.len() && after[a].0@
                    == after[b].0@ implies a == b by {
                assert(key_at(after, after[a].0@, a));
                assert(key_at(after, after[a].0@, b));
                if after[a].0@ != topic@ {
                    assert(key_at(before, after[a].0@, a));
                    assert(key_at(before, after[a].0@, b));
                }
            }
        }
        self.entries = entries;
    }
}

} // verus!

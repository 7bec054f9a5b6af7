//! A map keyed by names, kept as a list of entries with distinct keys. Lookups
//! compare names by their characters.
use vstd::prelude::*;

verus! {

/// A map from names to values.
pub struct NameMap<V> {
    entries: Vec<(String, V)>,
}

/// The map that a list of entries denotes: a later entry for a name wins.
pub open spec fn entries_map<V: DeepView>(s: Seq<(String, V)>) -> Map<Seq<char>, V::V>
    decreases s.len(),
{
    if s.len() == 0 {
        Map::empty()
    } else {
        entries_map(s.drop_last()).insert(s.last().0@, s.last().1.deep_view())
    }
}

/// Whether no two entries share a name.
pub open spec fn distinct_keys<V>(s: Seq<(String, V)>) -> bool {
    forall|i: int, j: int| 0 <= i < j < s.len() ==> s[i].0@ != s[j].0@
}

/// A name is a key of the denoted map exactly when some entry has it.
pub proof fn lemma_entries_map_keys<V: DeepView>(s: Seq<(String, V)>, k: Seq<char>)
    ensures
        entries_map(s).contains_key(k) <==> exists|i: int| 0 <= i < s.len() && s[i].0@ == k,
    decreases s.len(),
{
    if s.len() > 0 {
        lemma_entries_map_keys(s.drop_last(), k);
        if entries_map(s.drop_last()).contains_key(k) {
            let i = choose|i: int| 0 <= i < s.drop_last().len() && s.drop_last()[i].0@ == k;
            assert(s[i].0@ == k);
        }
        if exists|i: int| 0 <= i < s.len() && s[i].0@ == k {
            let i = choose|i: int| 0 <= i < s.len() && s[i].0@ == k;
            if i < s.len() - 1 {
                assert(s.drop_last()[i].0@ == k);
            }
        }
    }
}

/// With distinct names, the value of a name is that of its entry.
pub proof fn lemma_entries_map_value<V: DeepView>(s: Seq<(String, V)>, i: int)
    requires
        distinct_keys(s),
        0 <= i < s.len(),
    ensures
        entries_map(s).contains_key(s[i].0@),
        entries_map(s)[s[i].0@] == s[i].1.deep_view(),
    decreases s.len(),
{
    if i < s.len() - 1 {
        lemma_entries_map_value(s.drop_last(), i);
        assert(s.drop_last()[i] == s[i]);
    }
}

impl<V: DeepView> View for NameMap<V> {
    type V = Map<Seq<char>, V::V>;

    closed spec fn view(&self) -> Map<Seq<char>, V::V> {
        entries_map(self.entries@)
    }
}

impl<V> NameMap<V> {
    #[verifier::type_invariant]
    closed spec fn keys_distinct(self) -> bool {
        distinct_keys(self.entries@)
    }
}

impl<V: DeepView> NameMap<V> {
    /// An empty map.
    pub fn new() -> (r: NameMap<V>)
        ensures
            r@ == Map::<Seq<char>, V::V>::empty(),
    {
        NameMap { entries: Vec::new() }
    }

    /// Where the entry for `key` stands, if there is one.
    fn index_of(&self, key: &str) -> (r: Option<usize>)
        ensures
            r matches Some(i) ==> i < self.entries@.len() && self.entries@[i as int].0@ == key@,
            r is None ==> forall|i: int| 0 <= i < self.entries@.len() ==> self.entries@[i].0@ != key@,
    {
        let mut i: usize = 0;
        while i < self.entries.len()
            invariant
                i <= self.entries@.len(),
                forall|j: int| 0 <= j < i ==> self.entries@[j].0@ != key@,
            decreases self.entries@.len() - i,
        {
            if crate::text::str_eq(self.entries[i].0.as_str(), key) {
                return Some(i);
            }
            i = i + 1;
        }
        None
    }

    /// Whether the map has an entry for `key`.
    pub fn contains_key(&self, key: &str) -> (r: bool)
        ensures
            r == self@.contains_key(key@),
    {
        proof {
            lemma_entries_map_keys(self.entries@, key@);
        }
        self.index_of(key).is_some()
    }

    /// The value for `key`, if any.
    pub fn get(&self, key: &str) -> (r: Option<&V>)
        ensures
            r matches Some(v) ==> self@.contains_key(key@) && self@[key@] == v.deep_view(),
            r is None ==> !self@.contains_key(key@),
    {
        proof {
            use_type_invariant(self);
            lemma_entries_map_keys(self.entries@, key@);
        }
        match self.index_of(key) {
            Some(i) => {
                proof {
                    lemma_entries_map_value(self.entries@, i as int);
                }
                Some(&self.entries[i].1)
            },
            None => None,
        }
    }

    /// Sets the value for `key`, replacing any earlier one.
    pub fn insert(&mut self, key: String, value: V)
        ensures
            final(self)@ == old(self)@.insert(key@, value.deep_view()),
    {
        proof {
            use_type_invariant(&*self);
        }
        let ghost old_entries = self.entries@;
        let found = self.index_of(key.as_str());
        let mut entries: Vec<(String, V)> = Vec::new();
        std::mem::swap(&mut entries, &mut self.entries);
        let ghost k = key@;
        let ghost val = value.deep_view();
        match found {
            Some(i) => {
                entries.set(i, (key, value));
                proof {
                    let s = entries@;
                    assert(distinct_keys(s)) by {
                        assert forall|a: int, b: int| 0 <= a < b < s.len() implies s[a].0@ != s[b].0@ by {
                            if a != i && b != i {
                                assert(s[a] == old_entries[a] && s[b] == old_entries[b]);
                            } else if a == i {
                                assert(s[b] == old_entries[b]);
                            } else {
                                assert(s[a] == old_entries[a]);
                            }
                        }
                    }
                    assert(entries_map(s) =~= entries_map(old_entries).insert(k, val)) by {
                        assert forall|x: Seq<char>| #[trigger] entries_map(s).contains_key(x) <==> entries_map(old_entries).insert(k, val).contains_key(x) by {
                            lemma_entries_map_keys(s, x);
                            lemma_entries_map_keys(old_entries, x);
                            if x != k {
                                if exists|j: int| 0 <= j < old_entries.len() && old_entries[j].0@ == x {
                                    let j = choose|j: int| 0 <= j < old_entries.len() && old_entries[j].0@ == x;
                                    assert(s[j].0@ == x);
                                }
                                if exists|j: int| 0 <= j < s.len() && s[j].0@ == x {
                                    let j = choose|j: int| 0 <= j < s.len() && s[j].0@ == x;
                                    assert(old_entries[j].0@ == x);
                                }
                            } else {
                                assert(s[i as int].0@ == x);
                            }
                        }
                        assert forall|x: Seq<char>| #[trigger] entries_map(s).contains_key(x) implies entries_map(s)[x] == entries_map(old_entries).insert(k, val)[x] by {
                            lemma_entries_map_keys(s, x);
                            let j = choose|j: int| 0 <= j < s.len() && s[j].0@ == x;
                            lemma_entries_map_value(s, j);
                            if j != i {
                                assert(old_entries[j] == s[j]);
                                lemma_entries_map_value(old_entries, j);
                            }
                        }
                    }
                }
            },
            None => {
                entries.push((key, value));
                proof {
                    let s = entries@;
                    assert(s.drop_last() =~= old_entries);
                    assert(distinct_keys(s)) by {
                        assert forall|a: int, b: int| 0 <= a < b < s.len() implies s[a].0@ != s[b].0@ by {
                            if b < s.len() - 1 {
                                assert(s[a] == old_entries[a] && s[b] == old_entries[b]);
                            } else {
                                assert(s[a] == old_entries[a]);
                            }
                        }
                    }
                }
            },
        }
        self.entries = entries;
    }
}

} // verus!

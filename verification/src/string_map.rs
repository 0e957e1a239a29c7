//! A map from texts, small enough to be a list: environments, headers, providers.
//!
//! No key occurs twice. Its view is the mathematical map; the order of the entries
//! is no part of it.
use vstd::prelude::*;

verus! {

/// Where the first entry with the given key stands.
pub open spec fn entry_position<V>(entries: Seq<(String, V)>, key: Seq<char>) -> Option<int>
    decreases entries.len(),
{
    if entries.len() == 0 {
        None
    } else if entries[0].0@ == key {
        Some(0)
    } else {
        match entry_position(entries.drop_first(), key) {
            Some(i) => Some(i + 1),
            None => None,
        }
    }
}

/// The map that a list of entries stands for.
pub open spec fn entries_map<V>(entries: Seq<(String, V)>) -> Map<Seq<char>, V> {
    Map::new(
        |key: Seq<char>| entry_position(entries, key) is Some,
        |key: Seq<char>| entries[entry_position(entries, key)->0].1,
    )
}

/// No key occurs twice.
pub open spec fn keys_are_distinct<V>(entries: Seq<(String, V)>) -> bool {
    forall|i: int, j: int|
        0 <= i < j < entries.len() ==> (#[trigger] entries[i]).0@ != (#[trigger] entries[j]).0@
}

/// A map from texts.
#[derive(Debug, PartialEq, Eq)]
pub struct StringMap<V> {
    entries: Vec<(String, V)>,
}

impl<V> View for StringMap<V> {
    type V = Map<Seq<char>, V>;

    closed spec fn view(&self) -> Map<Seq<char>, V> {
        entries_map(self.entries@)
    }
}

/// An entry position lies within the entries, and it is the first with the key.
proof fn lemma_entry_position<V>(entries: Seq<(String, V)>, key: Seq<char>)
    ensures
        match entry_position(entries, key) {
            Some(i) => 0 <= i < entries.len() && entries[i].0@ == key && forall|j: int|
                0 <= j < i ==> (#[trigger] entries[j]).0@ != key,
            None => forall|j: int| 0 <= j < entries.len() ==> (#[trigger] entries[j]).0@ != key,
        },
    decreases entries.len(),
{
    if entries.len() > 0 && entries[0].0@ != key {
        let rest = entries.drop_first();
        lemma_entry_position(rest, key);
        assert forall|j: int|
            0 <= j < entries.len() && (match entry_position(rest, key) {
                Some(i) => j < i + 1,
                None => true,
            }) implies (#[trigger] entries[j]).0@ != key by {
            if j > 0 {
                assert(entries[j] == rest[j - 1]);
            }
        }
    }
}

/// An entry position is fixed by what stands at it and before it.
proof fn lemma_entry_position_is<V>(entries: Seq<(String, V)>, key: Seq<char>, at: Option<int>)
    requires
        match at {
            Some(i) => 0 <= i < entries.len() && entries[i].0@ == key && forall|j: int|
                0 <= j < i ==> (#[trigger] entries[j]).0@ != key,
            None => forall|j: int| 0 <= j < entries.len() ==> (#[trigger] entries[j]).0@ != key,
        },
    ensures
        entry_position(entries, key) == at,
{
    lemma_entry_position(entries, key);
}

impl<V> StringMap<V> {
    #[verifier::type_invariant]
    spec fn well_formed(self) -> bool {
        keys_are_distinct(self.entries@)
    }

    /// The entries in the order in which their keys were first set.
    pub closed spec fn listed(&self) -> Seq<(String, V)> {
        self.entries@
    }

    /// The map without entries.
    pub fn new() -> (map: StringMap<V>)
        ensures
            map@ == Map::<Seq<char>, V>::empty(),
    {
        let map = StringMap { entries: Vec::new() };
        proof {
            assert(map@ =~= Map::<Seq<char>, V>::empty());
        }
        map
    }

    /// The index of the entry with the given key.
    fn find(&self, key: &str) -> (found: Option<usize>)
        ensures
            match found {
                Some(i) => i < self.entries@.len() && entry_position(self.entries@, key@) == Some(
                    i as int,
                ),
                None => entry_position(self.entries@, key@) is None,
            },
    {
        let mut i: usize = 0;
        while i < self.entries.len()
            invariant
                i <= self.entries@.len(),
                forall|j: int| 0 <= j < i ==> (#[trigger] self.entries@[j]).0@ != key@,
            decreases self.entries@.len() - i,
        {
            if self.entries[i].0.as_str().eq(key) {
                proof {
                    lemma_entry_position_is(self.entries@, key@, Some(i as int));
                }
                return Some(i);
            }
            i += 1;
        }
        proof {
            lemma_entry_position_is(self.entries@, key@, None);
        }
        None
    }

    /// The value of a key.
    pub fn get(&self, key: &str) -> (value: Option<&V>)
        ensures
            match value {
                Some(v) => self@.contains_key(key@) && self@[key@] == *v,
                None => !self@.contains_key(key@),
            },
    {
        match self.find(key) {
            Some(i) => Some(&self.entries[i].1),
            None => None,
        }
    }

    /// Whether there is a value for a key.
    pub fn contains_key(&self, key: &str) -> (yes: bool)
        ensures
            yes == self@.contains_key(key@),
    {
        self.find(key).is_some()
    }

    /// Whether there are no entries.
    pub fn is_empty(&self) -> (yes: bool)
        ensures
            yes == (self@ == Map::<Seq<char>, V>::empty()),
    {
        let yes = self.entries.is_empty();
        proof {
            if yes {
                assert(self@ =~= Map::<Seq<char>, V>::empty());
            } else {
                let key = self.entries@[0].0@;
                lemma_entry_position_is(self.entries@, key, Some(0));
                assert(self@.contains_key(key));
            }
        }
        yes
    }

    /// Sets the value of a key.
    pub fn insert(&mut self, key: String, value: V)
        ensures
            final(self)@ == old(self)@.insert(key@, value),
    {
        proof {
            use_type_invariant(&*self);
        }
        let ghost before = self.entries@;
        let ghost wanted = key@;
        match self.find(key.as_str()) {
            Some(i) => {
                proof {
                    lemma_entry_position(before, wanted);
                }
                let mut entries: Vec<(String, V)> = Vec::new();
                core::mem::swap(&mut entries, &mut self.entries);
                entries.set(i, (key, value));
                proof {
                    assert(keys_are_distinct(entries@)) by {
                        assert forall|a: int, b: int| 0 <= a < b < entries@.len() implies (
                        #[trigger] entries@[a]).0@ != (#[trigger] entries@[b]).0@ by {
                            assert(before[a].0@ != before[b].0@);
                        }
                    }
                }
                self.entries = entries;
                proof {
                    let after = self.entries@;
                    assert forall|k: Seq<char>| true implies entry_position(after, k)
                        == entry_position(before, k) by {
                        lemma_entry_position(before, k);
                        lemma_entry_position_is(after, k, entry_position(before, k));
                    }
                    assert forall|k: Seq<char>| #[trigger] self@.contains_key(k) implies self@[k]
                        == old(self)@.insert(wanted, value)[k] by {
                        lemma_entry_position(before, k);
                    }
                    assert(self@ =~= old(self)@.insert(wanted, value));
                }
            },
            None => {
                proof {
                    lemma_entry_position(before, wanted);
                }
                let mut entries: Vec<(String, V)> = Vec::new();
                core::mem::swap(&mut entries, &mut self.entries);
                entries.push((key, value));
                proof {
                    assert(keys_are_distinct(entries@)) by {
                        assert forall|a: int, b: int| 0 <= a < b < entries@.len() implies (
                        #[trigger] entries@[a]).0@ != (#[trigger] entries@[b]).0@ by {
                            if b < before.len() {
                                assert(before[a].0@ != before[b].0@);
                            } else {
                                assert(before[a].0@ != wanted);
                            }
                        }
                    }
                }
                self.entries = entries;
                proof {
                    let after = self.entries@;
                    assert forall|k: Seq<char>| true implies entry_position(after, k) == (if k
                        == wanted {
                        Some(before.len() as int)
                    } else {
                        entry_position(before, k)
                    }) by {
                        lemma_entry_position(before, k);
                        assert forall|j: int| 0 <= j < before.len() implies after[j]
                            == before[j] by {}
                        if k == wanted {
                            assert forall|j: int| 0 <= j < before.len() implies (
                            #[trigger] after[j]).0@ != k by {
                                assert(before[j].0@ != wanted);
                            }
                            lemma_entry_position_is(after, k, Some(before.len() as int));
                        } else {
                            match entry_position(before, k) {
                                Some(i) => {
                                    assert forall|j: int| 0 <= j < i implies (
                                    #[trigger] after[j]).0@ != k by {
                                        assert(before[j].0@ != k);
                                    }
                                    lemma_entry_position_is(after, k, Some(i));
                                },
                                None => {
                                    assert forall|j: int| 0 <= j < after.len() implies (
                                    #[trigger] after[j]).0@ != k by {
                                        if j < before.len() {
                                            assert(before[j].0@ != k);
                                        }
                                    }
                                    lemma_entry_position_is(after, k, None);
                                },
                            }
                        }
                    }
                    assert forall|k: Seq<char>| #[trigger] old(self)@.contains_key(k) implies k
                        != wanted by {}
                    assert(self@ =~= old(self)@.insert(wanted, value)) by {
                        assert forall|k: Seq<char>| #[trigger] self@.contains_key(k) && k
                            != wanted implies self@[k] == old(self)@[k] by {
                            lemma_entry_position(before, k);
                        }
                    }
                }
            },
        }
    }

    /// Some key, where there is one.
    pub fn first_key(&self) -> (key: Option<&String>)
        ensures
            match key {
                Some(k) => self@.contains_key(k@),
                None => self@ == Map::<Seq<char>, V>::empty(),
            },
    {
        if self.entries.is_empty() {
            proof {
                assert(self@ =~= Map::<Seq<char>, V>::empty());
            }
            None
        } else {
            proof {
                lemma_entry_position_is(self.entries@, self.entries@[0].0@, Some(0));
            }
            Some(&self.entries[0].0)
        }
    }

    /// The entries as a list.
    pub fn into_entries(self) -> (entries: Vec<(String, V)>)
        ensures
            entries@ == self.listed(),
            entries_map(entries@) == self@,
            keys_are_distinct(entries@),
    {
        proof {
            use_type_invariant(&self);
        }
        self.entries
    }

    /// The entries, to read.
    pub fn entries(&self) -> (entries: &Vec<(String, V)>)
        ensures
            entries@ == self.listed(),
            entries_map(entries@) == self@,
            keys_are_distinct(entries@),
    {
        proof {
            use_type_invariant(self);
        }
        &self.entries
    }

    /// Sets the values of all keys of another map.
    pub fn extend(&mut self, other: StringMap<V>)
        ensures
            final(self)@ == old(self)@.union_prefer_right(other@),
    {
        let list = other.into_entries();
        let ghost before = self@;
        proof {
            assert(before.union_prefer_right(entries_map(list@.subrange(0, 0))) =~= before);
        }
        for entry in it: list.into_iter()
            invariant
                it.seq() == list@,
                keys_are_distinct(list@),
                self@ == before.union_prefer_right(
                    entries_map(list@.subrange(0, it.index() as int)),
                ),
        {
            let ghost i = it.index() as int;
            let ghost had = list@.subrange(0, i);
            let ghost now = list@.subrange(0, i + 1);
            let ghost before_step = self@;
            proof {
                assert(list@[i] == entry);
                assert(now.subrange(0, i) =~= had);
                lemma_one_more_entry(had, now, entry.0@, entry.1);
            }
            self.insert(entry.0, entry.1);
            proof {
                assert(before.union_prefer_right(entries_map(had)).insert(entry.0@, entry.1)
                    =~= before.union_prefer_right(entries_map(now)));
            }
        }
        proof {
            assert(list@.subrange(0, list@.len() as int) =~= list@);
        }
    }
}

/// One more entry with a key of its own is one more key in the map.
proof fn lemma_one_more_entry<V>(
    had: Seq<(String, V)>,
    now: Seq<(String, V)>,
    key: Seq<char>,
    value: V,
)
    requires
        now.len() == had.len() + 1,
        now.subrange(0, had.len() as int) == had,
        now.last().0@ == key,
        now.last().1 == value,
        forall|j: int| 0 <= j < had.len() ==> (#[trigger] had[j]).0@ != key,
    ensures
        entries_map(now) == entries_map(had).insert(key, value),
{
    let n = had.len() as int;
    assert forall|j: int| 0 <= j < n implies now[j] == had[j] by {
        assert(now.subrange(0, n)[j] == had[j]);
    }
    assert forall|k: Seq<char>| true implies entry_position(now, k) == (if k == key {
        Some(n)
    } else {
        entry_position(had, k)
    }) by {
        lemma_entry_position(had, k);
        if k == key {
            assert forall|j: int| 0 <= j < n implies (#[trigger] now[j]).0@ != k by {
                assert(had[j].0@ != key);
            }
            lemma_entry_position_is(now, k, Some(n));
        } else {
            match entry_position(had, k) {
                Some(i) => {
                    assert forall|j: int| 0 <= j < i implies (#[trigger] now[j]).0@ != k by {
                        assert(had[j].0@ != k);
                    }
                    lemma_entry_position_is(now, k, Some(i));
                },
                None => {
                    assert forall|j: int| 0 <= j < now.len() implies (#[trigger] now[j]).0@
                        != k by {
                        if j < n {
                            assert(had[j].0@ != k);
                        }
                    }
                    lemma_entry_position_is(now, k, None);
                },
            }
        }
    }
    assert forall|k: Seq<char>| #[trigger] entries_map(now).contains_key(k) && k
        != key implies entries_map(now)[k] == entries_map(had)[k] by {
        lemma_entry_position(had, k);
    }
    assert(entries_map(now) =~= entries_map(had).insert(key, value));
}

impl StringMap<String> {
    /// The same map again.
    pub fn duplicate(&self) -> (copy: StringMap<String>)
        ensures
            copy@ == self@,
    {
        proof {
            use_type_invariant(self);
        }
        let mut entries: Vec<(String, String)> = Vec::new();
        let mut i: usize = 0;
        while i < self.entries.len()
            invariant
                i <= self.entries@.len(),
                entries@ == self.entries@.subrange(0, i as int),
            decreases self.entries@.len() - i,
        {
            let pair = (self.entries[i].0.clone(), self.entries[i].1.clone());
            proof {
                assert(self.entries@.subrange(0, i as int + 1) =~= self.entries@.subrange(
                    0,
                    i as int,
                ).push(pair));
            }
            entries.push(pair);
            i += 1;
        }
        proof {
            assert(self.entries@.subrange(0, self.entries@.len() as int) =~= self.entries@);
        }
        StringMap { entries }
    }

    /// The value of a key, as a text of its own.
    pub fn get_owned(&self, key: &str) -> (value: Option<String>)
        ensures
            value == (if self@.contains_key(key@) {
                Some(self@[key@])
            } else {
                None
            }),
    {
        match self.get(key) {
            Some(v) => Some(v.clone()),
            None => None,
        }
    }
}

/// Lists with the same keys in the same order have each key at the same place.
proof fn lemma_same_keys_same_position<A, B>(
    a: Seq<(String, A)>,
    b: Seq<(String, B)>,
    key: Seq<char>,
)
    requires
        a.len() == b.len(),
        forall|j: int| 0 <= j < a.len() ==> (#[trigger] a[j]).0@ == (#[trigger] b[j]).0@,
    ensures
        entry_position(a, key) == entry_position(b, key),
{
    lemma_entry_position(a, key);
    assert forall|j: int| 0 <= j < a.len() implies (#[trigger] b[j]).0@ == a[j].0@ by {}
    lemma_entry_position_is(b, key, entry_position(a, key));
}

/// The views of lists of texts.
pub open spec fn list_views(map: Map<Seq<char>, Vec<String>>) -> Map<Seq<char>, Seq<String>> {
    map.map_values(|v: Vec<String>| v@)
}

/// The same texts again.
pub fn duplicate_texts(texts: &Vec<String>) -> (copy: Vec<String>)
    ensures
        copy@ == texts@,
{
    let mut copy: Vec<String> = Vec::new();
    let mut i: usize = 0;
    while i < texts.len()
        invariant
            i <= texts@.len(),
            copy@ == texts@.subrange(0, i as int),
        decreases texts@.len() - i,
    {
        let t = texts[i].clone();
        proof {
            assert(texts@.subrange(0, i as int + 1) =~= texts@.subrange(0, i as int).push(t));
        }
        copy.push(t);
        i += 1;
    }
    proof {
        assert(texts@.subrange(0, texts@.len() as int) =~= texts@);
    }
    copy
}

impl StringMap<Vec<String>> {
    /// The same map again.
    pub fn duplicate_lists(&self) -> (copy: StringMap<Vec<String>>)
        ensures
            list_views(copy@) == list_views(self@),
    {
        proof {
            use_type_invariant(self);
        }
        let mut entries: Vec<(String, Vec<String>)> = Vec::new();
        let mut i: usize = 0;
        while i < self.entries.len()
            invariant
                i <= self.entries@.len(),
                entries@.len() == i,
                forall|j: int|
                    0 <= j < i ==> (#[trigger] entries@[j]).0 == self.entries@[j].0
                        && entries@[j].1@ == self.entries@[j].1@,
            decreases self.entries@.len() - i,
        {
            let copied = duplicate_texts(&self.entries[i].1);
            entries.push((self.entries[i].0.clone(), copied));
            i += 1;
        }
        proof {
            assert forall|a: int, b: int| 0 <= a < b < entries@.len() implies (
            #[trigger] entries@[a]).0@ != (#[trigger] entries@[b]).0@ by {
                assert(self.entries@[a].0@ != self.entries@[b].0@);
            }
            assert forall|k: Seq<char>| true implies entry_position(entries@, k) == entry_position(
                self.entries@,
                k,
            ) by {
                lemma_same_keys_same_position(entries@, self.entries@, k);
            }
            assert forall|k: Seq<char>| #[trigger]
                entries_map(entries@).contains_key(k) implies entries_map(entries@)[k]@
                == entries_map(self.entries@)[k]@ by {
                lemma_entry_position(entries@, k);
            }
            assert(list_views(entries_map(entries@)) =~= list_views(entries_map(self.entries@)));
        }
        StringMap { entries }
    }
}

/// The key of an entry is a key of the map.
pub proof fn lemma_entry_is_in_map<V>(entries: Seq<(String, V)>, i: int)
    requires
        0 <= i < entries.len(),
    ensures
        entries_map(entries).contains_key(entries[i].0@),
{
    lemma_entry_position(entries, entries[i].0@);
}

/// A key of the map is the key of an entry.
pub proof fn lemma_key_is_in_entries<V>(entries: Seq<(String, V)>, key: Seq<char>)
    requires
        entries_map(entries).contains_key(key),
    ensures
        exists|j: int| 0 <= j < entries.len() && (#[trigger] entries[j]).0@ == key,
{
    lemma_entry_position(entries, key);
    let at = entry_position(entries, key)->0;
    assert(entries[at].0@ == key);
}

/// The map of no entries is empty.
pub proof fn lemma_no_entries<V>(entries: Seq<(String, V)>)
    ensures
        entries_map(entries.subrange(0, 0)) == Map::<Seq<char>, V>::empty(),
{
    assert(entries.subrange(0, 0) =~= Seq::empty());
    assert(entries_map(entries.subrange(0, 0)) =~= Map::empty());
}

/// One more entry is one more key.
pub proof fn lemma_entries_map_push<V>(entries: Seq<(String, V)>, entry: (String, V))
    requires
        keys_are_distinct(entries.push(entry)),
    ensures
        entries_map(entries.push(entry)) == entries_map(entries).insert(entry.0@, entry.1),
{
    let longer = entries.push(entry);
    assert(longer.drop_last() =~= entries);
    lemma_entry_position(entries, entry.0@);
    if entry_position(entries, entry.0@) is Some {
        let at = entry_position(entries, entry.0@)->0;
        assert(longer[at].0@ != longer[entries.len() as int].0@);
    }
    assert forall|k: Seq<char>| true implies #[trigger] entry_position(longer, k) == (
    match entry_position(entries, k) {
        Some(i) => Some(i),
        None => if entry.0@ == k {
            Some(entries.len() as int)
        } else {
            None
        },
    }) by {
        lemma_entry_position(entries, k);
        match entry_position(entries, k) {
            Some(i) => {
                lemma_entry_position_is(longer, k, Some(i));
            },
            None => {
                if entry.0@ == k {
                    lemma_entry_position_is(longer, k, Some(entries.len() as int));
                } else {
                    lemma_entry_position_is(longer, k, None);
                }
            },
        }
    }
    assert forall|k: Seq<char>| true implies (#[trigger] entry_position(entries, k) matches Some(
        i,
    ) ==> longer[i] == entries[i]) by {
        lemma_entry_position(entries, k);
    }
    assert(entries_map(longer) =~= entries_map(entries).insert(entry.0@, entry.1));
}

/// The key of an entry behind the others is not among theirs.
pub proof fn lemma_key_is_new<V>(entries: Seq<(String, V)>, entry: (String, V))
    requires
        keys_are_distinct(entries.push(entry)),
    ensures
        !entries_map(entries).contains_key(entry.0@),
{
    let longer = entries.push(entry);
    lemma_entry_position(entries, entry.0@);
    if entry_position(entries, entry.0@) is Some {
        let at = entry_position(entries, entry.0@)->0;
        assert(longer[at].0@ != longer[entries.len() as int].0@);
    }
}

} // verus!

//! A map from string identifiers to values, kept as a list of entries whose
//! identifiers are pairwise distinct. Toggles, actuators and cached states are
//! all looked up by their identifier through it.
use vstd::prelude::*;

verus! {

/// Whether no identifier occurs twice among `entries`.
pub open spec fn keys_distinct<V>(entries: Seq<(String, V)>) -> bool {
    forall|i: int, j: int|
        0 <= i < entries.len() && 0 <= j < entries.len() && i != j ==> #[trigger] entries[i].0@
            != #[trigger] entries[j].0@
}

/// The map that a list of entries stands for: each identifier maps to the value
/// of its last entry.
pub open spec fn entries_to_map<V>(entries: Seq<(String, V)>) -> Map<Seq<char>, V>
    decreases entries.len(),
{
    if entries.len() == 0 {
        Map::empty()
    } else {
        entries_to_map(entries.drop_last()).insert(entries.last().0@, entries.last().1)
    }
}

/// The map of a list of entries has finitely many keys.
pub proof fn lemma_entries_to_map_finite<V>(entries: Seq<(String, V)>)
    ensures
        entries_to_map(entries).dom().finite(),
    decreases entries.len(),
{
    if entries.len() > 0 {
        lemma_entries_to_map_finite(entries.drop_last());
    }
}

/// An identifier is a key of the map exactly when some entry carries it.
pub proof fn lemma_entries_to_map_contains<V>(entries: Seq<(String, V)>, key: Seq<char>)
    ensures
        entries_to_map(entries).contains_key(key) <==> exists|i: int|
            0 <= i < entries.len() && #[trigger] entries[i].0@ == key,
    decreases entries.len(),
{
    if entries.len() > 0 {
        let init = entries.drop_last();
        lemma_entries_to_map_contains(init, key);
        if entries_to_map(entries).contains_key(key) {
            if entries.last().0@ != key {
                let i = choose|i: int| 0 <= i < init.len() && #[trigger] init[i].0@ == key;
                assert(entries[i].0@ == key);
            } else {
                assert(entries[entries.len() - 1].0@ == key);
            }
        }
        if exists|i: int| 0 <= i < entries.len() && #[trigger] entries[i].0@ == key {
            let i = choose|i: int| 0 <= i < entries.len() && #[trigger] entries[i].0@ == key;
            if i < entries.len() - 1 {
                assert(init[i].0@ == key);
            }
        }
    }
}

/// With distinct identifiers, the map gives each entry's value under its identifier.
pub proof fn lemma_entries_to_map_index<V>(entries: Seq<(String, V)>, i: int)
    requires
        keys_distinct(entries),
        0 <= i < entries.len(),
    ensures
        entries_to_map(entries).contains_key(entries[i].0@),
        entries_to_map(entries)[entries[i].0@] == entries[i].1,
    decreases entries.len(),
{
    let init = entries.drop_last();
    if i < entries.len() - 1 {
        assert(keys_distinct(init)) by {
            assert forall|a: int, b: int|
                0 <= a < init.len() && 0 <= b < init.len() && a != b implies #[trigger] init[a].0@
                != #[trigger] init[b].0@ by {
                assert(init[a] == entries[a] && init[b] == entries[b]);
            }
        }
        lemma_entries_to_map_index(init, i);
        assert(init[i] == entries[i]);
        assert(entries[i].0@ != entries[entries.len() - 1].0@);
    }
}

/// Removing an entry removes its identifier from the map.
pub proof fn lemma_entries_to_map_remove<V>(entries: Seq<(String, V)>, i: int)
    requires
        keys_distinct(entries),
        0 <= i < entries.len(),
    ensures
        keys_distinct(entries.remove(i)),
        entries_to_map(entries.remove(i)) == entries_to_map(entries).remove(entries[i].0@),
{
    let rest = entries.remove(i);
    let key = entries[i].0@;
    assert(keys_distinct(rest)) by {
        assert forall|a: int, b: int|
            0 <= a < rest.len() && 0 <= b < rest.len() && a != b implies #[trigger] rest[a].0@
            != #[trigger] rest[b].0@ by {
            let ea = if a < i { a } else { a + 1 };
            let eb = if b < i { b } else { b + 1 };
            assert(rest[a] == entries[ea] && rest[b] == entries[eb]);
        }
    }
    let lhs = entries_to_map(rest);
    let rhs = entries_to_map(entries).remove(key);
    assert forall|k: Seq<char>| lhs.contains_key(k) <==> rhs.contains_key(k) by {
        lemma_entries_to_map_contains(rest, k);
        lemma_entries_to_map_contains(entries, k);
        if lhs.contains_key(k) {
            let a = choose|a: int| 0 <= a < rest.len() && #[trigger] rest[a].0@ == k;
            let ea = if a < i { a } else { a + 1 };
            assert(rest[a] == entries[ea]);
            assert(entries[ea].0@ == k);
        }
        if rhs.contains_key(k) {
            let a = choose|a: int| 0 <= a < entries.len() && #[trigger] entries[a].0@ == k;
            assert(a != i);
            let ra = if a < i { a } else { a - 1 };
            assert(rest[ra] == entries[a]);
        }
    }
    assert forall|k: Seq<char>| #[trigger] lhs.contains_key(k) implies lhs[k] == rhs[k] by {
        lemma_entries_to_map_contains(rest, k);
        let a = choose|a: int| 0 <= a < rest.len() && #[trigger] rest[a].0@ == k;
        let ea = if a < i { a } else { a + 1 };
        assert(rest[a] == entries[ea]);
        lemma_entries_to_map_index(rest, a);
        lemma_entries_to_map_index(entries, ea);
    }
    assert(lhs =~= rhs);
}

/// A map from identifiers to values; no identifier occurs twice.
pub struct IdMap<V> {
    entries: Vec<(String, V)>,
}

impl<V> IdMap<V> {
    #[verifier::type_invariant]
    spec fn well_formed(self) -> bool {
        keys_distinct(self.entries@)
    }

    /// The map of identifiers to values.
    pub closed spec fn view(&self) -> Map<Seq<char>, V> {
        entries_to_map(self.entries@)
    }

    /// The map has finitely many identifiers.
    pub proof fn lemma_view_finite(&self)
        ensures
            self@.dom().finite(),
    {
        lemma_entries_to_map_finite(self.entries@);
    }

    /// An empty map.
    pub fn new() -> (map: Self)
        ensures
            map@ == Map::<Seq<char>, V>::empty(),
    {
        IdMap { entries: Vec::new() }
    }

    /// The position of the entry with the given identifier, if any.
    fn position(&self, id: &str) -> (pos: Option<usize>)
        ensures
            match pos {
                Some(i) => i < self.entries@.len() && self.entries@[i as int].0@ == id@,
                None => forall|i: int|
                    0 <= i < self.entries@.len() ==> #[trigger] self.entries@[i].0@ != id@,
            },
    {
        let wanted = id.to_owned();
        let mut i: usize = 0;
        while i < self.entries.len()
            invariant
                wanted@ == id@,
                i <= self.entries@.len(),
                forall|j: int| 0 <= j < i ==> #[trigger] self.entries@[j].0@ != id@,
            decreases self.entries@.len() - i,
        {
            if self.entries[i].0 == wanted {
                return Some(i);
            }
            i = i + 1;
        }
        None
    }

    /// Whether the identifier is a key of the map.
    pub fn contains_key(&self, id: &str) -> (found: bool)
        ensures
            found == self@.contains_key(id@),
    {
        proof {
            lemma_entries_to_map_contains(self.entries@, id@);
        }
        self.position(id).is_some()
    }

    /// The value stored under the identifier, if any.
    pub fn get(&self, id: &str) -> (value: Option<&V>)
        ensures
            value == (if self@.contains_key(id@) {
                Some(&self@[id@])
            } else {
                None
            }),
    {
        proof {
            use_type_invariant(self);
            lemma_entries_to_map_contains(self.entries@, id@);
        }
        match self.position(id) {
            Some(i) => {
                proof {
                    lemma_entries_to_map_index(self.entries@, i as int);
                }
                Some(&self.entries[i].1)
            },
            None => None,
        }
    }

    /// Stores the value under the identifier and gives back the value that was
    /// stored there before, if any.
    pub fn insert(&mut self, id: String, value: V) -> (previous: Option<V>)
        ensures
            old(self)@.dom().finite(),
            final(self)@.dom().finite(),
            final(self)@ == old(self)@.insert(id@, value),
            previous == (if old(self)@.contains_key(id@) {
                Some(old(self)@[id@])
            } else {
                None
            }),
    {
        proof {
            use_type_invariant(&*self);
            lemma_entries_to_map_contains(self.entries@, id@);
            lemma_entries_to_map_finite(self.entries@);
        }
        let position = self.position(id.as_str());
        let mut entries: Vec<(String, V)> = Vec::new();
        std::mem::swap(&mut entries, &mut self.entries);
        let ghost before = entries@;
        let previous = match position {
            Some(i) => {
                proof {
                    lemma_entries_to_map_index(before, i as int);
                    lemma_entries_to_map_remove(before, i as int);
                }
                let (_, old_value) = entries.remove(i);
                Some(old_value)
            },
            None => None,
        };
        let ghost middle = entries@;
        proof {
            assert(entries_to_map(middle) == entries_to_map(before).remove(id@));
            assert forall|j: int| 0 <= j < middle.len() implies #[trigger] middle[j].0@ != id@ by {
                lemma_entries_to_map_contains(middle, id@);
            }
        }
        entries.push((id, value));
        proof {
            let after = entries@;
            assert(after.drop_last() =~= middle);
            assert(keys_distinct(after)) by {
                assert forall|a: int, b: int|
                    0 <= a < after.len() && 0 <= b < after.len() && a != b implies #[trigger] after[a].0@
                    != #[trigger] after[b].0@ by {
                    if a < middle.len() && b < middle.len() {
                        assert(after[a] == middle[a] && after[b] == middle[b]);
                    } else if a < middle.len() {
                        assert(after[a] == middle[a]);
                    } else {
                        assert(after[b] == middle[b]);
                    }
                }
            }
            assert(entries_to_map(after) =~= entries_to_map(before).insert(id@, value));
            lemma_entries_to_map_finite(after);
        }
        self.entries = entries;
        previous
    }

    /// The identifiers of the map, each once.
    pub fn keys(&self) -> (keys: Vec<String>)
        ensures
            forall|i: int, j: int|
                0 <= i < keys@.len() && 0 <= j < keys@.len() && i != j ==> #[trigger] keys@[i]@
                    != #[trigger] keys@[j]@,
            forall|k: Seq<char>|
                self@.contains_key(k) <==> exists|i: int| 0 <= i < keys@.len() && #[trigger] keys@[i]@ == k,
    {
        proof {
            use_type_invariant(self);
        }
        let mut keys: Vec<String> = Vec::new();
        let mut i: usize = 0;
        while i < self.entries.len()
            invariant
                i <= self.entries@.len(),
                keys_distinct(self.entries@),
                keys@.len() == i,
                forall|j: int| 0 <= j < i ==> #[trigger] keys@[j]@ == self.entries@[j].0@,
            decreases self.entries@.len() - i,
        {
            let key = self.entries[i].0.clone();
            keys.push(key);
            i = i + 1;
        }
        proof {
            assert forall|k: Seq<char>|
                self@.contains_key(k) <==> exists|i: int| 0 <= i < keys@.len() && #[trigger] keys@[i]@ == k by {
                lemma_entries_to_map_contains(self.entries@, k);
                if self@.contains_key(k) {
                    let j = choose|j: int| 0 <= j < self.entries@.len() && #[trigger] self.entries@[j].0@ == k;
                    assert(keys@[j]@ == k);
                }
                if exists|i: int| 0 <= i < keys@.len() && #[trigger] keys@[i]@ == k {
                    let j = choose|j: int| 0 <= j < keys@.len() && #[trigger] keys@[j]@ == k;
                    assert(self.entries@[j].0@ == k);
                }
            }
        }
        keys
    }
}

} // verus!

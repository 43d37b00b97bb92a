//! A map keyed by text, kept as a list of entries in which no key occurs
//! twice.

use crate::text::same_text;
use vstd::prelude::*;

verus! {

/// One key with the value stored under it.
struct Entry<V> {
    key: String,
    value: V,
}

/// No two entries share a key.
spec fn distinct_keys<V>(entries: Seq<Entry<V>>) -> bool {
    forall|i: int, j: int|
        0 <= i < j < entries.len() ==> (#[trigger] entries[i]).key@ != (#[trigger] entries[j]).key@
}

/// Some entry carries `key`.
spec fn holds_key<V>(entries: Seq<Entry<V>>, key: Seq<char>) -> bool {
    exists|i: int| 0 <= i < entries.len() && (#[trigger] entries[i]).key@ == key
}

/// A position at which `key` stands, where there is one.
spec fn position_of<V>(entries: Seq<Entry<V>>, key: Seq<char>) -> int {
    choose|i: int| 0 <= i < entries.len() && (#[trigger] entries[i]).key@ == key
}

/// The map that a list of entries stands for.
spec fn entries_map<V>(entries: Seq<Entry<V>>) -> Map<Seq<char>, V> {
    Map::new(
        |key: Seq<char>| holds_key(entries, key),
        |key: Seq<char>| entries[position_of(entries, key)].value,
    )
}

/// In a list without repeated keys, the entry at `i` is the one its key maps to.
proof fn lemma_entry_at<V>(entries: Seq<Entry<V>>, i: int)
    requires
        distinct_keys(entries),
        0 <= i < entries.len(),
    ensures
        holds_key(entries, entries[i].key@),
        position_of(entries, entries[i].key@) == i,
        entries_map(entries).contains_key(entries[i].key@),
        entries_map(entries)[entries[i].key@] == entries[i].value,
{
    let key = entries[i].key@;
    assert(holds_key(entries, key));
    let p = position_of(entries, key);
    assert(0 <= p < entries.len() && entries[p].key@ == key);
    if p < i {
        assert(entries[p].key@ != entries[i].key@);
    }
    if i < p {
        assert(entries[i].key@ != entries[p].key@);
    }
}

/// Appending an entry under a fresh key inserts it into the map.
proof fn lemma_push_fresh<V>(entries: Seq<Entry<V>>, entry: Entry<V>)
    requires
        distinct_keys(entries),
        !holds_key(entries, entry.key@),
    ensures
        distinct_keys(entries.push(entry)),
        entries_map(entries.push(entry)) == entries_map(entries).insert(entry.key@, entry.value),
{
    let grown = entries.push(entry);
    assert forall|i: int, j: int| 0 <= i < j < grown.len() implies (#[trigger] grown[i]).key@ != (
    #[trigger] grown[j]).key@ by {
        if j == entries.len() {
            assert(grown[i] == entries[i]);
            if entries[i].key@ == entry.key@ {
                assert(holds_key(entries, entry.key@));
            }
        } else {
            assert(grown[i] == entries[i]);
            assert(grown[j] == entries[j]);
        }
    }
    let before = entries_map(entries);
    let after = entries_map(grown);
    assert forall|key: Seq<char>| after.contains_key(key) <==> before.insert(
        entry.key@,
        entry.value,
    ).contains_key(key) by {
        if holds_key(grown, key) {
            let p = position_of(grown, key);
            if p < entries.len() {
                assert(grown[p] == entries[p]);
                assert(holds_key(entries, key));
            }
        }
        if holds_key(entries, key) {
            let p = position_of(entries, key);
            assert(grown[p] == entries[p]);
            assert(holds_key(grown, key));
        }
        if key == entry.key@ {
            assert(grown[entries.len() as int] == entry);
            assert(holds_key(grown, key));
        }
    }
    assert forall|key: Seq<char>| after.contains_key(key) implies after[key] == before.insert(
        entry.key@,
        entry.value,
    )[key] by {
        let p = position_of(grown, key);
        lemma_entry_at(grown, p);
        if p < entries.len() {
            assert(grown[p] == entries[p]);
            lemma_entry_at(entries, p);
        } else {
            assert(grown[p] == entry);
        }
    }
    assert(after =~= before.insert(entry.key@, entry.value));
}

/// Taking the entry at `i` out of the list removes its key from the map.
proof fn lemma_remove_at<V>(entries: Seq<Entry<V>>, i: int)
    requires
        distinct_keys(entries),
        0 <= i < entries.len(),
    ensures
        distinct_keys(entries.remove(i)),
        !holds_key(entries.remove(i), entries[i].key@),
        entries_map(entries.remove(i)) == entries_map(entries).remove(entries[i].key@),
{
    let rest = entries.remove(i);
    let gone = entries[i].key@;
    assert forall|a: int| 0 <= a < rest.len() implies #[trigger] rest[a] == entries[if a < i {
        a
    } else {
        a + 1
    }] by {}
    assert forall|a: int, b: int| 0 <= a < b < rest.len() implies (#[trigger] rest[a]).key@ != (
    #[trigger] rest[b]).key@ by {
        let x = if a < i { a } else { a + 1 };
        let y = if b < i { b } else { b + 1 };
        assert(rest[a] == entries[x]);
        assert(rest[b] == entries[y]);
        assert(entries[x].key@ != entries[y].key@);
    }
    if holds_key(rest, gone) {
        let p = position_of(rest, gone);
        let x = if p < i { p } else { p + 1 };
        assert(rest[p] == entries[x]);
        if x < i {
            assert(entries[x].key@ != entries[i].key@);
        } else {
            assert(entries[i].key@ != entries[x].key@);
        }
    }
    let before = entries_map(entries);
    let after = entries_map(rest);
    assert forall|key: Seq<char>| after.contains_key(key) <==> before.remove(gone).contains_key(
        key,
    ) by {
        if holds_key(rest, key) {
            let p = position_of(rest, key);
            let x = if p < i { p } else { p + 1 };
            assert(rest[p] == entries[x]);
            assert(holds_key(entries, key));
        }
        if holds_key(entries, key) && key != gone {
            let p = position_of(entries, key);
            let x = if p < i { p } else { p - 1 };
            assert(rest[x] == entries[p]);
            assert(holds_key(rest, key));
        }
    }
    assert forall|key: Seq<char>| after.contains_key(key) implies after[key] == before.remove(
        gone,
    )[key] by {
        let p = position_of(rest, key);
        lemma_entry_at(rest, p);
        let x = if p < i { p } else { p + 1 };
        assert(rest[p] == entries[x]);
        lemma_entry_at(entries, x);
    }
    assert(after =~= before.remove(gone));
}

/// A map from text to values of type `V`.
pub struct TextMap<V> {
    entries: Vec<Entry<V>>,
}

impl<V> View for TextMap<V> {
    type V = Map<Seq<char>, V>;

    closed spec fn view(&self) -> Map<Seq<char>, V> {
        entries_map(self.entries@)
    }
}

impl<V> TextMap<V> {
    #[verifier::type_invariant]
    spec fn well_formed(self) -> bool {
        distinct_keys(self.entries@)
    }

    /// The empty map.
    pub fn new() -> (map: Self)
        ensures
            map@ == Map::<Seq<char>, V>::empty(),
    {
        let map = TextMap { entries: Vec::new() };
        assert(map@ =~= Map::<Seq<char>, V>::empty());
        map
    }

    /// Where `key` stands among the entries, if it does.
    fn find(&self, key: &str) -> (found: Option<usize>)
        ensures
            match found {
                Some(i) => i < self.entries@.len() && self.entries@[i as int].key@ == key@,
                None => !holds_key(self.entries@, key@),
            },
    {
        let mut i: usize = 0;
        while i < self.entries.len()
            invariant
                i <= self.entries@.len(),
                forall|j: int| 0 <= j < i ==> (#[trigger] self.entries@[j]).key@ != key@,
            decreases self.entries@.len() - i,
        {
            if same_text(self.entries[i].key.as_str(), key) {
                return Some(i);
            }
            i += 1;
        }
        None
    }

    /// Whether a value is stored under `key`.
    pub fn contains_key(&self, key: &str) -> (present: bool)
        ensures
            present == self@.contains_key(key@),
    {
        self.find(key).is_some()
    }

    /// The value stored under `key`, if there is one.
    pub fn get(&self, key: &str) -> (value: Option<&V>)
        ensures
            value == if self@.contains_key(key@) {
                Some(&self@[key@])
            } else {
                None
            },
    {
        proof {
            use_type_invariant(self);
        }
        match self.find(key) {
            Some(i) => {
                proof {
                    lemma_entry_at(self.entries@, i as int);
                }
                Some(&self.entries[i].value)
            },
            None => None,
        }
    }

    /// Stores `value` under `key` and returns what was stored there before.
    pub fn insert(&mut self, key: String, value: V) -> (displaced: Option<V>)
        ensures
            final(self)@ == old(self)@.insert(key@, value),
            displaced == if old(self)@.contains_key(key@) {
                Some(old(self)@[key@])
            } else {
                None
            },
    {
        proof {
            use_type_invariant(&*self);
        }
        let found = self.find(key.as_str());
        let mut entries = Vec::new();
        std::mem::swap(&mut entries, &mut self.entries);
        let ghost before = entries@;
        let displaced = match found {
            Some(i) => {
                proof {
                    lemma_entry_at(before, i as int);
                    lemma_remove_at(before, i as int);
                }
                let entry = entries.remove(i);
                Some(entry.value)
            },
            None => None,
        };
        let entry = Entry { key, value };
        proof {
            lemma_push_fresh(entries@, entry);
            assert(entries_map(before).remove(key@).insert(key@, value) =~= entries_map(
                before,
            ).insert(key@, value));
        }
        entries.push(entry);
        self.entries = entries;
        displaced
    }

    /// Takes the value stored under `key` out of the map, if there is one.
    pub fn remove(&mut self, key: &str) -> (taken: Option<V>)
        ensures
            final(self)@ == old(self)@.remove(key@),
            taken == if old(self)@.contains_key(key@) {
                Some(old(self)@[key@])
            } else {
                None
            },
    {
        proof {
            use_type_invariant(&*self);
        }
        match self.find(key) {
            Some(i) => {
                let mut entries = Vec::new();
                std::mem::swap(&mut entries, &mut self.entries);
                proof {
                    lemma_entry_at(entries@, i as int);
                    lemma_remove_at(entries@, i as int);
                }
                let entry = entries.remove(i);
                self.entries = entries;
                Some(entry.value)
            },
            None => {
                assert(self@.remove(key@) =~= self@);
                None
            },
        }
    }
}

} // verus!

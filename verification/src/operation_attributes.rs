//! Correlation attributes shared by every event of one operation.

use vstd::prelude::*;

use crate::text::{text_eq, text_less, text_lt, lemma_text_less_irreflexive,
    lemma_text_less_total, lemma_text_less_transitive};

verus! {

/// Whether the keys of `entries` are strictly increasing.
pub open spec fn keys_sorted(entries: Seq<(Seq<char>, Seq<char>)>) -> bool {
    forall|i: int, j: int|
        0 <= i < j < entries.len() ==> text_less(#[trigger] entries[i].0, #[trigger] entries[j].0)
}

/// Whether some entry carries key `k`.
pub open spec fn has_key(entries: Seq<(Seq<char>, Seq<char>)>, k: Seq<char>) -> bool {
    exists|i: int| 0 <= i < entries.len() && (#[trigger] entries[i]).0 == k
}

/// A position of an entry carrying key `k`.
pub open spec fn key_index(entries: Seq<(Seq<char>, Seq<char>)>, k: Seq<char>) -> int {
    choose|i: int| 0 <= i < entries.len() && (#[trigger] entries[i]).0 == k
}

/// The map from keys to values that `entries` lists.
pub open spec fn entries_map(entries: Seq<(Seq<char>, Seq<char>)>) -> Map<Seq<char>, Seq<char>> {
    Map::new(|k: Seq<char>| has_key(entries, k), |k: Seq<char>| entries[key_index(entries, k)].1)
}

/// String key-value attributes shared by every event in one operation.
///
/// Entries are kept in ascending key order, each key at most once.
#[derive(Debug, PartialEq, Eq)]
pub struct OperationAttributes {
    /// Entries in ascending key order.
    entries: Vec<(String, String)>,
}

impl OperationAttributes {
    /// The entries as texts, in stored order.
    pub closed spec fn entry_texts(&self) -> Seq<(Seq<char>, Seq<char>)> {
        self.entries@.map_values(|e: (String, String)| (e.0@, e.1@))
    }

    /// Stored entries are in ascending key order.
    #[verifier::type_invariant]
    closed spec fn sorted(&self) -> bool {
        keys_sorted(self.entry_texts())
    }
}

impl View for OperationAttributes {
    type V = Map<Seq<char>, Seq<char>>;

    closed spec fn view(&self) -> Map<Seq<char>, Seq<char>> {
        entries_map(self.entry_texts())
    }
}

/// In a sorted entry list, the entry at `i` is the one for its key.
proof fn lemma_sorted_lookup(entries: Seq<(Seq<char>, Seq<char>)>, i: int)
    requires
        keys_sorted(entries),
        0 <= i < entries.len(),
    ensures
        entries_map(entries).contains_key(entries[i].0),
        entries_map(entries)[entries[i].0] == entries[i].1,
{
    let k = entries[i].0;
    assert(has_key(entries, k));
    let j = key_index(entries, k);
    if j != i {
        if j < i {
            assert(text_less(entries[j].0, entries[i].0));
        } else {
            assert(text_less(entries[i].0, entries[j].0));
        }
        lemma_text_less_irreflexive(k);
    }
    assert(entries_map(entries).dom().contains(k));
    assert(entries_map(entries)[k] == entries[j].1);
}

/// In a sorted entry list, entries at different positions have different keys.
proof fn lemma_sorted_distinct(entries: Seq<(Seq<char>, Seq<char>)>, i: int, j: int)
    requires
        keys_sorted(entries),
        0 <= i < entries.len(),
        0 <= j < entries.len(),
        i != j,
    ensures
        entries[i].0 != entries[j].0,
{
    lemma_text_less_irreflexive(entries[i].0);
    if i < j {
        assert(text_less(entries[i].0, entries[j].0));
    } else {
        assert(text_less(entries[j].0, entries[i].0));
    }
}

impl OperationAttributes {
    /// Creates an empty attribute set.
    pub fn new() -> (a: Self)
        ensures
            a@ == Map::<Seq<char>, Seq<char>>::empty(),
            a.entry_texts().len() == 0,
    {
        let a = OperationAttributes { entries: Vec::new() };
        assert(a.entry_texts() =~= Seq::<(Seq<char>, Seq<char>)>::empty());
        assert(a@ =~= Map::<Seq<char>, Seq<char>>::empty());
        a
    }

    /// Inserts or replaces one attribute value.
    pub fn insert(&mut self, key: &str, value: &str)
        ensures
            final(self)@ == old(self)@.insert(key@, value@),
    {
        proof {
            use_type_invariant(&*self);
        }
        let ghost old_entries = self.entry_texts();
        let n = self.entries.len();
        let mut i: usize = 0;
        while i < n
            invariant
                n == self.entries@.len(),
                old_entries == self.entry_texts(),
                keys_sorted(old_entries),
                i <= n,
                forall|j: int| 0 <= j < i ==> text_less(#[trigger] old_entries[j].0, key@),
            ensures
                i <= n,
                forall|j: int| 0 <= j < i ==> text_less(#[trigger] old_entries[j].0, key@),
                i < n ==> !text_less(old_entries[i as int].0, key@),
            decreases n - i,
        {
            assert(old_entries[i as int] == (self.entries@[i as int].0@, self.entries@[i as int].1@));
            if !text_lt(self.entries[i].0.as_str(), key) {
                break;
            }
            i = i + 1;
        }
        assert(i < n ==> old_entries[i as int] == (
            self.entries@[i as int].0@,
            self.entries@[i as int].1@,
        ));
        let is_replace = i < n && text_eq(self.entries[i].0.as_str(), key);
        let new_entry = (key.to_owned(), value.to_owned());
        let mut entries: Vec<(String, String)> = Vec::new();
        std::mem::swap(&mut entries, &mut self.entries);
        assert(entries@.map_values(|e: (String, String)| (e.0@, e.1@)) == old_entries);
        if is_replace {
            entries.set(i, new_entry);
            proof {
                let ne = entries@.map_values(|e: (String, String)| (e.0@, e.1@));
                assert(ne =~= old_entries.update(i as int, (key@, value@)));
                assert forall|a: int, b: int| 0 <= a < b < ne.len() implies text_less(
                    #[trigger] ne[a].0,
                    #[trigger] ne[b].0,
                ) by {
                    assert(ne[a].0 == old_entries[a].0);
                    assert(ne[b].0 == old_entries[b].0);
                }
            }
        } else {
            proof {
                if i < n {
                    assert(!text_less(old_entries[i as int].0, key@));
                    lemma_text_less_total(old_entries[i as int].0, key@);
                }
            }
            entries.insert(i, new_entry);
            proof {
                let ne = entries@.map_values(|e: (String, String)| (e.0@, e.1@));
                assert(ne =~= old_entries.insert(i as int, (key@, value@)));
                assert forall|b: int| i < b < ne.len() implies text_less(key@, #[trigger] ne[b].0) by {
                    assert(ne[b] == old_entries[b - 1]);
                    if b - 1 > i {
                        lemma_text_less_transitive(key@, old_entries[i as int].0, old_entries[b - 1].0);
                    }
                }
                assert forall|a: int, b: int| 0 <= a < b < ne.len() implies text_less(
                    #[trigger] ne[a].0,
                    #[trigger] ne[b].0,
                ) by {
                    if a < i && b == i {
                        assert(ne[a] == old_entries[a]);
                    } else if a < i && b > i {
                        assert(ne[a] == old_entries[a]);
                        assert(text_less(key@, ne[b].0));
                        lemma_text_less_transitive(ne[a].0, key@, ne[b].0);
                    } else if a == i {
                        assert(text_less(key@, ne[b].0));
                    } else if b < i {
                        assert(ne[a] == old_entries[a]);
                        assert(ne[b] == old_entries[b]);
                    } else {
                        assert(ne[a] == old_entries[a - 1]);
                        assert(ne[b] == old_entries[b - 1]);
                    }
                }
            }
        }
        self.entries = entries;
        proof {
            if is_replace {
                self.lemma_view_after_replace(old_entries, i as int, key@, value@);
            } else {
                self.lemma_view_after_insert(old_entries, i as int, key@, value@);
            }
        }
    }

    /// The map view after replacing the value of an existing key.
    proof fn lemma_view_after_replace(
        &self,
        old_entries: Seq<(Seq<char>, Seq<char>)>,
        i: int,
        key: Seq<char>,
        value: Seq<char>,
    )
        requires
            keys_sorted(old_entries),
            0 <= i < old_entries.len(),
            old_entries[i].0 == key,
            self.entry_texts() == old_entries.update(i, (key, value)),
            keys_sorted(self.entry_texts()),
        ensures
            self@ =~= entries_map(old_entries).insert(key, value),
    {
        let ne = self.entry_texts();
        let om = entries_map(old_entries);
        assert forall|k: Seq<char>| #[trigger] self@.contains_key(k) <==> om.insert(
            key,
            value,
        ).contains_key(k) by {
            if self@.contains_key(k) {
                let j = key_index(ne, k);
                assert(old_entries[j].0 == k);
            }
            if om.contains_key(k) {
                let j = key_index(old_entries, k);
                assert(ne[j].0 == k);
            }
            if k == key {
                assert(ne[i].0 == k);
            }
        }
        assert forall|k: Seq<char>| #[trigger] self@.contains_key(k) implies self@[k] == om.insert(
            key,
            value,
        )[k] by {
            let j = key_index(ne, k);
            lemma_sorted_lookup(ne, j);
            if j != i {
                lemma_sorted_lookup(old_entries, j);
                lemma_sorted_distinct(old_entries, i, j);
            }
        }
    }

    /// The map view after inserting an entry for a new key.
    proof fn lemma_view_after_insert(
        &self,
        old_entries: Seq<(Seq<char>, Seq<char>)>,
        i: int,
        key: Seq<char>,
        value: Seq<char>,
    )
        requires
            keys_sorted(old_entries),
            0 <= i <= old_entries.len(),
            self.entry_texts() == old_entries.insert(i, (key, value)),
            keys_sorted(self.entry_texts()),
        ensures
            self@ =~= entries_map(old_entries).insert(key, value),
    {
        let ne = self.entry_texts();
        let om = entries_map(old_entries);
        assert forall|k: Seq<char>| #[trigger] self@.contains_key(k) <==> om.insert(
            key,
            value,
        ).contains_key(k) by {
            if self@.contains_key(k) {
                let j = key_index(ne, k);
                if j < i {
                    assert(old_entries[j].0 == k);
                } else if j > i {
                    assert(old_entries[j - 1].0 == k);
                }
            }
            if om.contains_key(k) {
                let j = key_index(old_entries, k);
                if j < i {
                    assert(ne[j].0 == k);
                } else {
                    assert(ne[j + 1].0 == k);
                }
            }
            if k == key {
                assert(ne[i].0 == k);
            }
        }
        assert forall|k: Seq<char>| #[trigger] self@.contains_key(k) implies self@[k] == om.insert(
            key,
            value,
        )[k] by {
            let j = key_index(ne, k);
            lemma_sorted_lookup(ne, j);
            if j < i {
                lemma_sorted_lookup(old_entries, j);
                lemma_sorted_distinct(ne, i, j);
            } else if j > i {
                lemma_sorted_lookup(old_entries, j - 1);
                lemma_sorted_distinct(ne, i, j);
            }
        }
    }

    /// Returns one attribute value by key.
    pub fn get(&self, key: &str) -> (value: Option<&str>)
        ensures
            value is Some <==> self@.contains_key(key@),
            value matches Some(v) ==> v@ == self@[key@],
    {
        proof {
            use_type_invariant(self);
        }
        let n = self.entries.len();
        let mut i: usize = 0;
        while i < n
            invariant
                n == self.entries@.len(),
                keys_sorted(self.entry_texts()),
                i <= n,
                forall|j: int| 0 <= j < i ==> (#[trigger] self.entry_texts()[j]).0 != key@,
            decreases n - i,
        {
            assert(self.entry_texts()[i as int] == (
                self.entries@[i as int].0@,
                self.entries@[i as int].1@,
            ));
            if text_eq(self.entries[i].0.as_str(), key) {
                proof {
                    lemma_sorted_lookup(self.entry_texts(), i as int);
                }
                return Some(self.entries[i].1.as_str());
            }
            i = i + 1;
        }
        assert(!self@.contains_key(key@));
        None
    }

    /// Returns all attributes in ascending key order.
    pub fn iter(&self) -> (entries: &[(String, String)])
        ensures
            entries@.map_values(|e: (String, String)| (e.0@, e.1@)) == self.entry_texts(),
            keys_sorted(self.entry_texts()),
            entries_map(self.entry_texts()) == self@,
    {
        proof {
            use_type_invariant(self);
        }
        self.entries.as_slice()
    }

    /// Returns whether no attributes are configured.
    pub fn is_empty(&self) -> (r: bool)
        ensures
            r == (self@ == Map::<Seq<char>, Seq<char>>::empty()),
    {
        proof {
            use_type_invariant(self);
            if self.entries@.len() > 0 {
                lemma_sorted_lookup(self.entry_texts(), 0);
                assert(self@.contains_key(self.entry_texts()[0].0));
            } else {
                assert(self@ =~= Map::<Seq<char>, Seq<char>>::empty());
            }
        }
        self.entries.len() == 0
    }
}

impl Clone for OperationAttributes {
    /// Copies every entry.
    fn clone(&self) -> (c: Self)
        ensures
            c@ == self@,
            c.entry_texts() == self.entry_texts(),
    {
        proof {
            use_type_invariant(self);
        }
        let n = self.entries.len();
        let mut entries: Vec<(String, String)> = Vec::new();
        let mut i: usize = 0;
        while i < n
            invariant
                n == self.entries@.len(),
                i <= n,
                entries@.len() == i,
                forall|j: int|
                    0 <= j < i ==> (#[trigger] entries@[j]).0@ == self.entries@[j].0@
                        && entries@[j].1@ == self.entries@[j].1@,
            decreases n - i,
        {
            let e = (self.entries[i].0.clone(), self.entries[i].1.clone());
            entries.push(e);
            i = i + 1;
        }
        let ghost copied = entries@.map_values(|e: (String, String)| (e.0@, e.1@));
        assert(copied =~= self.entry_texts());
        OperationAttributes { entries }
    }
}

impl Default for OperationAttributes {
    fn default() -> (a: Self)
        ensures
            a@ == Map::<Seq<char>, Seq<char>>::empty(),
    {
        OperationAttributes::new()
    }
}

/// Reading an attribute after writing it gives back what was written, and
/// writing one key leaves every other key as it was.
pub proof fn lemma_attribute_read_after_write(
    before: Map<Seq<char>, Seq<char>>,
    after: Map<Seq<char>, Seq<char>>,
    key: Seq<char>,
    value: Seq<char>,
    other: Seq<char>,
)
    requires
        after == before.insert(key, value),
    ensures
        after.contains_key(key),
        after[key] == value,
        other != key ==> (after.contains_key(other) == before.contains_key(other)),
        other != key && before.contains_key(other) ==> after[other] == before[other],
{
}

} // verus!

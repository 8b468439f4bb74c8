//! A small map kept as a vector of entries with distinct keys. Its entries
//! stay in the order in which their keys were first inserted, so it can be
//! walked by index in an order that does not change from run to run.

use vstd::prelude::*;

verus! {

/// A type whose values can be told apart at run time exactly as their views
/// are told apart in specifications.
pub trait MapKey: View + Sized {
    /// Whether `self` and `other` stand for the same key.
    fn key_eq(&self, other: &Self) -> (same: bool)
        ensures
            same == (self@ == other@),
    ;
}

impl MapKey for String {
    fn key_eq(&self, other: &Self) -> (same: bool) {
        *self == *other
    }
}

/// The keys of a sequence of entries, in order.
spec fn entry_keys<K: View, V>(entries: Seq<(K, V)>) -> Seq<K::V> {
    Seq::new(entries.len(), |i: int| entries[i].0@)
}

/// The map that a sequence of entries with distinct keys stands for.
spec fn entry_map<K: View, V>(entries: Seq<(K, V)>) -> Map<K::V, V> {
    Map::new(
        |k: K::V| entry_keys(entries).contains(k),
        |k: K::V| entries[entry_keys(entries).index_of(k)].1,
    )
}

/// What the `i`-th of a sequence of entries with distinct keys says of the
/// map: its key is in the map, with its value, and is found at `i`.
proof fn lemma_entry<K: View, V>(entries: Seq<(K, V)>, i: int)
    requires
        entry_keys(entries).no_duplicates(),
        0 <= i < entries.len(),
    ensures
        entry_map(entries).contains_key(entries[i].0@),
        entry_map(entries)[entries[i].0@] == entries[i].1,
        entry_keys(entries).index_of(entries[i].0@) == i,
{
    let keys = entry_keys(entries);
    let k = entries[i].0@;
    assert(keys[i] == k);
    let j = keys.index_of(k);
    assert(keys[j] == k);
}

/// Taking one element out of a sequence without duplicates leaves a sequence
/// without duplicates.
proof fn lemma_remove_keeps_distinct<A>(s: Seq<A>, i: int)
    requires
        s.no_duplicates(),
        0 <= i < s.len(),
    ensures
        s.remove(i).no_duplicates(),
{
    let r = s.remove(i);
    assert forall|a: int, b: int| 0 <= a < r.len() && 0 <= b < r.len() && a != b implies r[a]
        != r[b] by {
        let a0 = if a < i {
            a
        } else {
            a + 1
        };
        let b0 = if b < i {
            b
        } else {
            b + 1
        };
        assert(r[a] == s[a0]);
        assert(r[b] == s[b0]);
    }
}

/// Putting `(key, value)` in the place of the `i`-th entry, whose key is
/// that of `key`, or behind all entries where `i` is their number and no
/// entry has that key, gives the map with `value` stored for the key.
proof fn lemma_store<K: View, V>(before: Seq<(K, V)>, after: Seq<(K, V)>, i: int, key: K, value: V)
    requires
        entry_keys(before).no_duplicates(),
        0 <= i <= before.len(),
        i < before.len() ==> before[i].0@ == key@ && after == before.update(i, (key, value)),
        i == before.len() ==> !entry_keys(before).contains(key@) && after == before.push(
            (key, value),
        ),
    ensures
        entry_keys(after).no_duplicates(),
        entry_keys(after) == (if i < before.len() {
            entry_keys(before)
        } else {
            entry_keys(before).push(key@)
        }),
        entry_map(after) == entry_map(before).insert(key@, value),
{
    let k = key@;
    let old_keys = entry_keys(before);
    let new_keys = entry_keys(after);
    if i < before.len() {
        assert(new_keys =~= old_keys);
    } else {
        assert(new_keys =~= old_keys.push(k));
    }
    assert(new_keys[i] == k);
    assert forall|q: K::V|
        entry_map(after).contains_key(q) == entry_map(before).insert(k, value).contains_key(
            q,
        ) by {
        if old_keys.contains(q) {
            let j = old_keys.index_of(q);
            assert(new_keys[j] == q);
        }
        if new_keys.contains(q) {
            let j = new_keys.index_of(q);
            if j != i {
                assert(old_keys[j] == q);
            }
        }
    }
    assert forall|q: K::V| entry_map(after).contains_key(q) implies #[trigger] entry_map(after)[q]
        == entry_map(before).insert(k, value)[q] by {
        let j = new_keys.index_of(q);
        assert(new_keys[j] == q);
        lemma_entry(after, j);
        if j != i {
            assert(old_keys[j] == q);
            lemma_entry(before, j);
        }
    }
    assert(entry_map(after) =~= entry_map(before).insert(k, value));
}

/// Taking out the `i`-th entry gives the map without that entry's key.
proof fn lemma_take_out<K: View, V>(before: Seq<(K, V)>, i: int)
    requires
        entry_keys(before).no_duplicates(),
        0 <= i < before.len(),
    ensures
        entry_keys(before.remove(i)).no_duplicates(),
        entry_keys(before.remove(i)) == entry_keys(before).remove(i),
        entry_map(before.remove(i)) == entry_map(before).remove(before[i].0@),
{
    let after = before.remove(i);
    let k = before[i].0@;
    let old_keys = entry_keys(before);
    let new_keys = entry_keys(after);
    assert(new_keys =~= old_keys.remove(i));
    lemma_remove_keeps_distinct(old_keys, i);
    lemma_entry(before, i);
    assert forall|q: K::V|
        entry_map(after).contains_key(q) == entry_map(before).remove(k).contains_key(q) by {
        if old_keys.contains(q) && q != k {
            let j = old_keys.index_of(q);
            if j < i {
                assert(new_keys[j] == q);
            } else {
                assert(new_keys[j - 1] == q);
            }
        }
        if new_keys.contains(q) {
            let j = new_keys.index_of(q);
            if j < i {
                assert(old_keys[j] == q);
            } else {
                assert(old_keys[j + 1] == q);
            }
        }
    }
    assert forall|q: K::V| entry_map(after).contains_key(q) implies #[trigger] entry_map(after)[q]
        == entry_map(before).remove(k)[q] by {
        let j = new_keys.index_of(q);
        assert(new_keys[j] == q);
        lemma_entry(after, j);
        let j0: int = if j < i {
            j
        } else {
            j + 1
        };
        assert(old_keys[j0] == q);
        lemma_entry(before, j0);
    }
    assert(entry_map(after) =~= entry_map(before).remove(k));
}

/// Position of `key` among `entries`, if it is there.
fn position<K: MapKey, V>(entries: &Vec<(K, V)>, key: &K) -> (at: Option<usize>)
    ensures
        match at {
            Some(i) => i < entries@.len() && entries@[i as int].0@ == key@,
            None => !entry_keys(entries@).contains(key@),
        },
{
    let mut i: usize = 0;
    while i < entries.len()
        invariant
            i <= entries@.len(),
            forall|j: int| 0 <= j < i ==> entries@[j].0@ != key@,
        decreases entries@.len() - i,
    {
        if entries[i].0.key_eq(key) {
            return Some(i);
        }
        i = i + 1;
    }
    None
}

/// A finite map from `K` to `V`.
#[derive(Debug)]
pub struct VecMap<K: MapKey, V> {
    entries: Vec<(K, V)>,
}

impl<K: MapKey, V> View for VecMap<K, V> {
    type V = Map<K::V, V>;

    closed spec fn view(&self) -> Map<K::V, V> {
        entry_map(self.entries@)
    }
}

impl<K: MapKey, V> VecMap<K, V> {
    /// The keys, in the order in which the map is walked.
    pub closed spec fn keys(&self) -> Seq<K::V> {
        entry_keys(self.entries@)
    }

    #[verifier::type_invariant]
    spec fn keys_distinct(&self) -> bool {
        entry_keys(self.entries@).no_duplicates()
    }

    /// The keys are distinct and are exactly the domain of the map.
    pub proof fn lemma_keys(&self)
        requires
            self.keys().no_duplicates(),
        ensures
            self@.dom() == self.keys().to_set(),
            self@.dom().finite(),
            self@.dom().len() == self.keys().len(),
            forall|k: K::V| self@.contains_key(k) <==> self.keys().contains(k),
    {
        assert(self@.dom() =~= self.keys().to_set());
        vstd::seq_lib::seq_to_set_is_finite(self.keys());
        self.keys().unique_seq_to_set();
    }

    /// An empty map.
    pub fn new() -> (m: Self)
        ensures
            m@ == Map::<K::V, V>::empty(),
            m.keys() == Seq::<K::V>::empty(),
    {
        let m = VecMap { entries: Vec::new() };
        assert(m.keys() =~= Seq::<K::V>::empty());
        assert(m@ =~= Map::<K::V, V>::empty());
        m
    }

    /// The number of entries.
    pub fn len(&self) -> (n: usize)
        ensures
            n == self.keys().len(),
            n == self@.dom().len(),
            self.keys().no_duplicates(),
    {
        proof {
            use_type_invariant(self);
            self.lemma_keys();
        }
        self.entries.len()
    }

    /// Whether the map has an entry for `key`.
    pub fn contains_key(&self, key: &K) -> (found: bool)
        ensures
            found == self@.contains_key(key@),
    {
        proof {
            use_type_invariant(self);
        }
        match position(&self.entries, key) {
            Some(i) => {
                proof {
                    lemma_entry(self.entries@, i as int);
                }
                true
            },
            None => false,
        }
    }

    /// The value stored for `key`, if there is one.
    pub fn get(&self, key: &K) -> (value: Option<&V>)
        ensures
            value == (if self@.contains_key(key@) {
                Some(&self@[key@])
            } else {
                None
            }),
    {
        proof {
            use_type_invariant(self);
        }
        match position(&self.entries, key) {
            Some(i) => {
                proof {
                    lemma_entry(self.entries@, i as int);
                }
                Some(&self.entries[i].1)
            },
            None => None,
        }
    }

    /// The key of the `i`-th entry.
    pub fn key_at(&self, i: usize) -> (key: &K)
        requires
            i < self.keys().len(),
        ensures
            key@ == self.keys()[i as int],
            self@.contains_key(key@),
    {
        proof {
            use_type_invariant(self);
            lemma_entry(self.entries@, i as int);
        }
        &self.entries[i].0
    }

    /// The value of the `i`-th entry.
    pub fn value_at(&self, i: usize) -> (value: &V)
        requires
            i < self.keys().len(),
        ensures
            self@.contains_key(self.keys()[i as int]),
            *value == self@[self.keys()[i as int]],
    {
        proof {
            use_type_invariant(self);
            lemma_entry(self.entries@, i as int);
        }
        &self.entries[i].1
    }

    /// Stores `value` for `key` and returns what was stored for it before. A
    /// new key goes behind the others; a known key keeps its place.
    pub fn insert(&mut self, key: K, value: V) -> (before: Option<V>)
        ensures
            final(self)@ == old(self)@.insert(key@, value),
            before == (if old(self)@.contains_key(key@) {
                Some(old(self)@[key@])
            } else {
                None
            }),
            final(self).keys() == (if old(self)@.contains_key(key@) {
                old(self).keys()
            } else {
                old(self).keys().push(key@)
            }),
    {
        proof {
            use_type_invariant(&*self);
        }
        let mut entries: Vec<(K, V)> = Vec::new();
        assert(entry_keys(entries@) =~= Seq::<K::V>::empty());
        core::mem::swap(&mut self.entries, &mut entries);
        let ghost old_entries = entries@;
        let ghost k = key@;
        let before = match position(&entries, &key) {
            Some(i) => {
                proof {
                    lemma_entry(old_entries, i as int);
                    lemma_store(
                        old_entries,
                        old_entries.update(i as int, (key, value)),
                        i as int,
                        key,
                        value,
                    );
                }
                let (_old_key, old_value) = entries.remove(i);
                entries.insert(i, (key, value));
                assert(entries@ =~= old_entries.update(i as int, (key, value)));
                Some(old_value)
            },
            None => {
                proof {
                    lemma_store(
                        old_entries,
                        old_entries.push((key, value)),
                        old_entries.len() as int,
                        key,
                        value,
                    );
                }
                entries.push((key, value));
                None
            },
        };
        core::mem::swap(&mut self.entries, &mut entries);
        before
    }

    /// Removes the entry for `key` and returns its value, if there was one.
    /// The other entries keep their order.
    pub fn remove(&mut self, key: &K) -> (removed: Option<V>)
        ensures
            final(self)@ == old(self)@.remove(key@),
            removed == (if old(self)@.contains_key(key@) {
                Some(old(self)@[key@])
            } else {
                None
            }),
            final(self).keys() == (if old(self)@.contains_key(key@) {
                old(self).keys().remove(old(self).keys().index_of(key@))
            } else {
                old(self).keys()
            }),
    {
        proof {
            use_type_invariant(&*self);
        }
        let mut entries: Vec<(K, V)> = Vec::new();
        assert(entry_keys(entries@) =~= Seq::<K::V>::empty());
        core::mem::swap(&mut self.entries, &mut entries);
        let ghost old_entries = entries@;
        let removed = match position(&entries, key) {
            Some(i) => {
                proof {
                    lemma_entry(old_entries, i as int);
                    lemma_take_out(old_entries, i as int);
                }
                let (_key, value) = entries.remove(i);
                Some(value)
            },
            None => {
                assert(entry_map(old_entries).remove(key@) =~= entry_map(old_entries));
                None
            },
        };
        core::mem::swap(&mut self.entries, &mut entries);
        removed
    }
}

} // verus!

//! A small map: a list of entries found by the text they are keyed by.

use vstd::prelude::*;
use crate::text::same_text;

verus! {

/// A key that can be compared by what it says.
pub trait TextKey: View {
    /// Whether two keys say the same.
    fn same_key(&self, other: &Self) -> (same: bool)
        ensures
            same == (self@ == other@),
    ;
}

impl TextKey for String {
    fn same_key(&self, other: &Self) -> (same: bool) {
        same_text(self.as_str(), other.as_str())
    }
}

impl TextKey for (String, String) {
    fn same_key(&self, other: &Self) -> (same: bool) {
        same_text(self.0.as_str(), other.0.as_str()) && same_text(self.1.as_str(), other.1.as_str())
    }
}

/// A map held as a list of entries.
#[derive(Clone, Debug)]
pub struct Keyed<K, V> {
    entries: Vec<(K, V)>,
}

/// The value of the first entry at or after `from` whose key is `key`.
spec fn lookup<K: View, V>(entries: Seq<(K, V)>, key: K::V, from: int) -> Option<V>
    decreases entries.len() - from,
{
    if 0 <= from < entries.len() {
        if entries[from].0@ == key {
            Some(entries[from].1)
        } else {
            lookup(entries, key, from + 1)
        }
    } else {
        None
    }
}

/// The map that the entries at and after `from` make up.
spec fn tail<K: View, V>(entries: Seq<(K, V)>, from: int) -> Map<K::V, V> {
    Map::new(
        |key: K::V| lookup(entries, key, from) is Some,
        |key: K::V| lookup(entries, key, from)->0,
    )
}

proof fn lookup_after_push<K: View, V>(entries: Seq<(K, V)>, entry: (K, V), key: K::V, from: int)
    requires
        0 <= from <= entries.len(),
        forall|i: int| 0 <= i < entries.len() ==> #[trigger] entries[i].0@ != entry.0@,
    ensures
        lookup(entries.push(entry), key, from) == (if key == entry.0@ {
            Some(entry.1)
        } else {
            lookup(entries, key, from)
        }),
    decreases entries.len() - from,
{
    if from < entries.len() {
        assert(entries.push(entry)[from] == entries[from]);
        lookup_after_push(entries, entry, key, from + 1);
    } else {
        assert(entries.push(entry)[from] == entry);
        assert(lookup(entries.push(entry), key, from + 1) == None::<V>);
    }
}

proof fn lookup_after_update<K: View, V>(
    entries: Seq<(K, V)>,
    at: int,
    entry: (K, V),
    key: K::V,
    from: int,
)
    requires
        0 <= from <= entries.len(),
        0 <= at < entries.len(),
        entries[at].0@ == entry.0@,
        forall|i: int| 0 <= i < at ==> #[trigger] entries[i].0@ != entry.0@,
    ensures
        key != entry.0@ ==> lookup(entries.update(at, entry), key, from) == lookup(
            entries,
            key,
            from,
        ),
        key == entry.0@ && from <= at ==> lookup(entries.update(at, entry), key, from) == Some(
            entry.1,
        ),
    decreases entries.len() - from,
{
    if from < entries.len() {
        lookup_after_update(entries, at, entry, key, from + 1);
    }
}

impl<K: TextKey, V> View for Keyed<K, V> {
    type V = Map<K::V, V>;

    closed spec fn view(&self) -> Map<K::V, V> {
        Map::new(
            |key: K::V| lookup(self.entries@, key, 0) is Some,
            |key: K::V| lookup(self.entries@, key, 0)->0,
        )
    }
}

impl<K: TextKey, V> Keyed<K, V> {
    /// The map without entries.
    pub fn new() -> (map: Self)
        ensures
            map@ == Map::<K::V, V>::empty(),
    {
        Keyed { entries: Vec::new() }
    }

    /// Whether nothing is kept.
    pub fn is_empty(&self) -> (empty: bool)
        ensures
            empty == (self@ == Map::<K::V, V>::empty()),
    {
        proof {
            if self.entries@.len() > 0 {
                assert(self@.dom().contains(self.entries@[0].0@));
            } else {
                assert(self@ =~= Map::<K::V, V>::empty());
            }
        }
        self.entries.len() == 0
    }

    /// The value kept for `key`.
    pub fn get(&self, key: &K) -> (value: Option<&V>)
        ensures
            match value {
                Some(v) => self@.dom().contains(key@) && *v == self@[key@],
                None => !self@.dom().contains(key@),
            },
    {
        let mut i: usize = 0;
        while i < self.entries.len()
            invariant
                i <= self.entries@.len(),
                lookup(self.entries@, key@, 0) == lookup(self.entries@, key@, i as int),
            decreases self.entries@.len() - i,
        {
            if self.entries[i].0.same_key(key) {
                return Some(&self.entries[i].1);
            }
            i = i + 1;
        }
        None
    }

    /// Whether a value is kept for `key`.
    pub fn contains_key(&self, key: &K) -> (yes: bool)
        ensures
            yes == self@.dom().contains(key@),
    {
        self.get(key).is_some()
    }

    /// Keeps `value` for `key`, in place of what was kept for it.
    pub fn insert(&mut self, key: K, value: V)
        ensures
            final(self)@ == old(self)@.insert(key@, value),
    {
        let ghost before = self.entries@;
        let ghost view = self@;
        let ghost entry = (key, value);
        let mut i: usize = 0;
        while i < self.entries.len()
            invariant
                i <= self.entries@.len(),
                self.entries@ == before,
                entry == (key, value),
                view == old(self)@,
                view == (Keyed { entries: self.entries })@,
                forall|j: int| 0 <= j < i ==> #[trigger] before[j].0@ != key@,
            decreases self.entries@.len() - i,
        {
            if self.entries[i].0.same_key(&key) {
                proof {
                    assert forall|k: K::V| true implies lookup(before.update(i as int, entry), k, 0)
                        == (if k == key@ {
                        Some(value)
                    } else {
                        lookup(before, k, 0)
                    }) by {
                        lookup_after_update(before, i as int, entry, k, 0);
                    }
                }
                self.entries.set(i, (key, value));
                proof {
                    assert(self@ =~= view.insert(key@, value));
                }
                return ;
            }
            i = i + 1;
        }
        proof {
            assert forall|k: K::V| true implies lookup(before.push(entry), k, 0) == (if k == key@ {
                Some(value)
            } else {
                lookup(before, k, 0)
            }) by {
                lookup_after_push(before, entry, k, 0);
            }
        }
        self.entries.push((key, value));
        proof {
            assert(self@ =~= view.insert(key@, value));
        }
    }

    /// Takes over the entries of another map. Where both keep something for a
    /// key, the other map's value stays.
    pub fn extend(&mut self, other: Keyed<K, V>)
        ensures
            final(self)@ == old(self)@.union_prefer_right(other@),
    {
        let ghost theirs = other.entries@;
        let ghost ours = self@;
        let mut rest = other.entries;
        proof {
            assert(ours =~= ours.union_prefer_right(tail(theirs, theirs.len() as int)));
        }
        while rest.len() > 0
            invariant
                rest@ == theirs.take(rest@.len() as int),
                rest@.len() <= theirs.len(),
                self@ == ours.union_prefer_right(tail(theirs, rest@.len() as int)),
            decreases rest@.len(),
        {
            let ghost n = rest@.len() as int;
            let last = rest.pop();
            if let Some((key, value)) = last {
                self.insert(key, value);
                proof {
                    assert(rest@ =~= theirs.take(n - 1));
                    assert(theirs[n - 1] == (key, value));
                    assert(tail(theirs, n - 1) =~= tail(theirs, n).insert(key@, value));
                    assert(self@ =~= ours.union_prefer_right(tail(theirs, n - 1)));
                }
            }
        }
        proof {
            assert(tail(theirs, 0) =~= other@);
        }
    }
}

impl<K: TextKey, V> Default for Keyed<K, V> {
    fn default() -> (map: Self)
        ensures
            map@ == Map::<K::V, V>::empty(),
    {
        Keyed::new()
    }
}

/// What is kept for a key is found under it, in place of what was kept before,
/// and nothing that is kept for another key is touched.
pub proof fn what_is_kept_is_found<K: TextKey, V>(
    map: &mut Keyed<K, V>,
    key: K,
    value: V,
    other: K::V,
)
    requires
        call_ensures(Keyed::<K, V>::insert, (map, key, value), ()),
    ensures
        final(map)@.dom().contains(key@),
        final(map)@[key@] == value,
        other != key@ ==> final(map)@.dom().contains(other) == old(map)@.dom().contains(other),
        other != key@ && old(map)@.dom().contains(other) ==> final(map)@[other] == old(map)@[other],
{
}

/// Taking over another map keeps everything of both, and where both keep
/// something for a key, what the other one keeps.
pub proof fn another_map_is_taken_over<K: TextKey, V>(
    map: &mut Keyed<K, V>,
    more: Keyed<K, V>,
    key: K::V,
)
    requires
        call_ensures(Keyed::<K, V>::extend, (map, more), ()),
    ensures
        final(map)@.dom().contains(key) <==> old(map)@.dom().contains(key) || more@.dom().contains(
            key,
        ),
        more@.dom().contains(key) ==> final(map)@[key] == more@[key],
        !more@.dom().contains(key) && old(map)@.dom().contains(key) ==> final(map)@[key]
            == old(map)@[key],
{
}

/// A lookup finds what is kept for the key, exactly where something is.
pub proof fn a_lookup_finds_what_is_kept<K: TextKey, V>(
    map: &Keyed<K, V>,
    key: &K,
    found: Option<&V>,
    there: bool,
    empty: bool,
)
    requires
        call_ensures(Keyed::<K, V>::get, (map, key), found),
        call_ensures(Keyed::<K, V>::contains_key, (map, key), there),
        call_ensures(Keyed::<K, V>::is_empty, (map,), empty),
    ensures
        there <==> map@.dom().contains(key@),
        found is Some <==> there,
        found matches Some(value) ==> *value == map@[key@],
        empty ==> !there,
{
}

} // verus!

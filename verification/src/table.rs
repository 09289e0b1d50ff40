//! A finite map kept as a list of entries.

use vstd::prelude::*;

use crate::address::Address;

verus! {

/// A type whose values can be told apart by what they stand for.
pub trait TableKey: View + Sized {
    fn same_key(&self, other: &Self) -> (r: bool)
        ensures
            r == (self@ == other@),
    ;
}

impl TableKey for Address {
    fn same_key(&self, other: &Self) -> (r: bool) {
        *self == *other
    }
}

impl TableKey for u64 {
    fn same_key(&self, other: &Self) -> (r: bool) {
        *self == *other
    }
}

impl TableKey for (Address, Address) {
    fn same_key(&self, other: &Self) -> (r: bool) {
        self.0 == other.0 && self.1 == other.1
    }
}

impl TableKey for Vec<u8> {
    fn same_key(&self, other: &Self) -> (r: bool) {
        let n: usize = self.len();
        if n != other.len() {
            return false;
        }
        let mut i: usize = 0;
        while i < n
            invariant
                i <= n,
                n == self@.len(),
                n == other@.len(),
                forall|j: int| 0 <= j < i ==> self@[j] == other@[j],
            decreases n - i,
        {
            if self[i] != other[i] {
                assert(self@[i as int] != other@[i as int]);
                return false;
            }
            i = i + 1;
        }
        assert(self@ =~= other@);
        true
    }
}

/// What a list of entries stands for: for each key, the value of its first entry.
pub open spec fn entries_map<K: View, V: View>(entries: Seq<(K, V)>) -> Map<K::V, V::V>
    decreases entries.len(),
{
    if entries.len() == 0 {
        Map::empty()
    } else {
        entries_map(entries.drop_first()).insert(entries[0].0@, entries[0].1@)
    }
}

/// Whether some entry of the list has key `k`.
pub open spec fn has_entry<K: View, V: View>(entries: Seq<(K, V)>, k: K::V) -> bool {
    exists|i: int| 0 <= i < entries.len() && #[trigger] entries[i].0@ == k
}

/// The map is defined exactly on the keys that the list has.
proof fn lemma_map_domain<K: View, V: View>(entries: Seq<(K, V)>, k: K::V)
    ensures
        entries_map(entries).contains_key(k) == has_entry(entries, k),
        entries_map(entries).dom().finite(),
    decreases entries.len(),
{
    if entries.len() > 0 {
        let rest = entries.drop_first();
        lemma_map_domain(rest, k);
        if has_entry(entries, k) {
            let i = choose|i: int| 0 <= i < entries.len() && #[trigger] entries[i].0@ == k;
            if i > 0 {
                assert(rest[i - 1].0@ == k);
            }
        }
        if has_entry(rest, k) {
            let i = choose|i: int| 0 <= i < rest.len() && #[trigger] rest[i].0@ == k;
            assert(entries[i + 1].0@ == k);
        }
        if entries[0].0@ == k {
            assert(has_entry(entries, k));
        }
    }
}

/// The first entry of a key decides its value.
proof fn lemma_map_first<K: View, V: View>(entries: Seq<(K, V)>, i: int)
    requires
        0 <= i < entries.len(),
        forall|j: int| 0 <= j < i ==> (#[trigger] entries[j]).0@ != entries[i].0@,
    ensures
        entries_map(entries).contains_key(entries[i].0@),
        entries_map(entries)[entries[i].0@] == entries[i].1@,
    decreases entries.len(),
{
    if i > 0 {
        let rest = entries.drop_first();
        assert forall|j: int| 0 <= j < i - 1 implies (#[trigger] rest[j]).0@ != rest[i - 1].0@ by {
            assert(rest[j] == entries[j + 1]);
        }
        lemma_map_first(rest, i - 1);
        assert(entries[0].0@ != entries[i].0@);
    }
}

/// Replacing the first entry of a key puts the new value there.
proof fn lemma_map_update<K: View, V: View>(entries: Seq<(K, V)>, i: int, e: (K, V))
    requires
        0 <= i < entries.len(),
        entries[i].0@ == e.0@,
        forall|j: int| 0 <= j < i ==> (#[trigger] entries[j]).0@ != e.0@,
    ensures
        entries_map(entries.update(i, e)) == entries_map(entries).insert(e.0@, e.1@),
    decreases entries.len(),
{
    let new = entries.update(i, e);
    let rest = entries.drop_first();
    if i == 0 {
        assert(new.drop_first() =~= rest);
        assert(entries_map(new) =~= entries_map(entries).insert(e.0@, e.1@));
    } else {
        assert forall|j: int| 0 <= j < i - 1 implies (#[trigger] rest[j]).0@ != e.0@ by {
            assert(rest[j] == entries[j + 1]);
        }
        lemma_map_update(rest, i - 1, e);
        assert(new.drop_first() =~= rest.update(i - 1, e));
        assert(entries[0].0@ != e.0@);
        assert(entries_map(new) =~= entries_map(entries).insert(e.0@, e.1@));
    }
}

/// An entry of a new key at the end adds that key.
proof fn lemma_map_push<K: View, V: View>(entries: Seq<(K, V)>, e: (K, V))
    requires
        forall|j: int| 0 <= j < entries.len() ==> (#[trigger] entries[j]).0@ != e.0@,
    ensures
        entries_map(entries.push(e)) == entries_map(entries).insert(e.0@, e.1@),
    decreases entries.len(),
{
    let new = entries.push(e);
    if entries.len() == 0 {
        assert(new.drop_first() =~= entries);
    } else {
        let rest = entries.drop_first();
        assert forall|j: int| 0 <= j < rest.len() implies (#[trigger] rest[j]).0@ != e.0@ by {
            assert(rest[j] == entries[j + 1]);
        }
        lemma_map_push(rest, e);
        assert(new.drop_first() =~= rest.push(e));
        assert(entries[0].0@ != e.0@);
        assert(entries_map(new) =~= entries_map(entries).insert(e.0@, e.1@));
    }
}

/// Dropping one entry changes the map at its key only.
proof fn lemma_map_drop<K: View, V: View>(entries: Seq<(K, V)>, i: int)
    requires
        0 <= i < entries.len(),
    ensures
        entries_map(entries.remove(i)).remove(entries[i].0@) == entries_map(entries).remove(
            entries[i].0@,
        ),
    decreases entries.len(),
{
    let k = entries[i].0@;
    let new = entries.remove(i);
    let rest = entries.drop_first();
    if i == 0 {
        assert(new =~= rest);
        assert(entries_map(new).remove(k) =~= entries_map(entries).remove(k));
    } else {
        lemma_map_drop(rest, i - 1);
        assert(rest[i - 1] == entries[i]);
        assert(new.drop_first() =~= rest.remove(i - 1));
        let a = entries_map(new.drop_first());
        let b = entries_map(rest);
        assert(a.remove(k) == b.remove(k));
        let h = entries[0].0@;
        let v = entries[0].1@;
        if h == k {
            assert(a.insert(h, v).remove(k) =~= a.remove(k));
            assert(b.insert(h, v).remove(k) =~= b.remove(k));
        } else {
            assert(a.insert(h, v).remove(k) =~= a.remove(k).insert(h, v));
            assert(b.insert(h, v).remove(k) =~= b.remove(k).insert(h, v));
        }
        assert(new[0] == entries[0]);
    }
}

/// A finite map from keys to values.
pub struct Table<K, V> {
    entries: Vec<(K, V)>,
}

impl<K: View, V: View> View for Table<K, V> {
    type V = Map<K::V, V::V>;

    closed spec fn view(&self) -> Map<K::V, V::V> {
        entries_map(self.entries@)
    }
}

impl<K: TableKey, V: View> Table<K, V> {
    /// The empty map.
    pub fn new() -> (r: Self)
        ensures
            r@ == Map::<K::V, V::V>::empty(),
    {
        Table { entries: Vec::new() }
    }

    /// The place of the first entry with key `key`.
    fn find(&self, key: &K) -> (r: Option<usize>)
        ensures
            match r {
                Some(i) => i < self.entries@.len() && self.entries@[i as int].0@ == key@ && forall|
                    j: int,
                |
                    0 <= j < i ==> (#[trigger] self.entries@[j]).0@ != key@,
                None => forall|j: int|
                    0 <= j < self.entries@.len() ==> (#[trigger] self.entries@[j]).0@ != key@,
            },
    {
        let mut i: usize = 0;
        while i < self.entries.len()
            invariant
                i <= self.entries.len(),
                forall|j: int| 0 <= j < i ==> (#[trigger] self.entries@[j]).0@ != key@,
            decreases self.entries.len() - i,
        {
            if self.entries[i].0.same_key(key) {
                return Some(i);
            }
            i = i + 1;
        }
        None
    }

    /// The value stored under `key`.
    pub fn get(&self, key: &K) -> (r: Option<&V>)
        ensures
            match r {
                Some(v) => self@.contains_key(key@) && v@ == self@[key@],
                None => !self@.contains_key(key@),
            },
    {
        proof {
            lemma_map_domain(self.entries@, key@);
        }
        match self.find(key) {
            Some(i) => {
                proof {
                    lemma_map_first(self.entries@, i as int);
                }
                Some(&self.entries[i].1)
            },
            None => None,
        }
    }

    /// Whether a value is stored under `key`.
    pub fn has(&self, key: &K) -> (r: bool)
        ensures
            r == self@.contains_key(key@),
    {
        self.get(key).is_some()
    }

    /// Stores `value` under `key`, in place of what was there.
    pub fn set(&mut self, key: K, value: V)
        ensures
            final(self)@ == old(self)@.insert(key@, value@),
    {
        match self.find(&key) {
            Some(i) => {
                proof {
                    lemma_map_update(self.entries@, i as int, (key, value));
                }
                self.entries.set(i, (key, value));
            },
            None => {
                proof {
                    lemma_map_push(self.entries@, (key, value));
                }
                self.entries.push((key, value));
            },
        }
    }

    /// Removes what is stored under `key`.
    pub fn remove(&mut self, key: &K)
        ensures
            final(self)@ == old(self)@.remove(key@),
    {
        let mut i: usize = 0;
        while i < self.entries.len()
            invariant
                i <= self.entries@.len(),
                forall|j: int| 0 <= j < i ==> (#[trigger] self.entries@[j]).0@ != key@,
                self@.remove(key@) == old(self)@.remove(key@),
            decreases self.entries.len() - i,
        {
            if self.entries[i].0.same_key(key) {
                proof {
                    lemma_map_drop(self.entries@, i as int);
                }
                let _ = self.entries.remove(i);
            } else {
                i = i + 1;
            }
        }
        proof {
            lemma_map_domain(self.entries@, key@);
            assert(self@.remove(key@) =~= self@);
        }
    }
}

} // verus!

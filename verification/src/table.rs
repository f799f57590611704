//! A keyed store: what a contract keeps under keys with a parameter.

use vstd::prelude::*;

use crate::value::{Address, Bytes32};

verus! {

/// Keys that can be compared by what they stand for.
pub trait Key: View + Sized {
    fn same(&self, other: &Self) -> (b: bool)
        ensures
            b == (self@ == other@),
    ;
}

impl Key for Address {
    fn same(&self, other: &Self) -> (b: bool) {
        *self == *other
    }
}

impl Key for Bytes32 {
    fn same(&self, other: &Self) -> (b: bool) {
        *self == *other
    }
}

impl Key for u32 {
    fn same(&self, other: &Self) -> (b: bool) {
        *self == *other
    }
}

impl Key for String {
    fn same(&self, other: &Self) -> (b: bool) {
        *self == *other
    }
}

impl<A: Key, B: Key> Key for (A, B) {
    fn same(&self, other: &Self) -> (b: bool) {
        self.0.same(&other.0) && self.1.same(&other.1)
    }
}

/// A finite map from keys to values.
pub struct Table<K: Key, V> {
    entries: Vec<(K, V)>,
}

spec fn no_repeats<K: Key, V>(entries: Seq<(K, V)>) -> bool {
    forall|i: int, j: int|
        0 <= i < j < entries.len() ==> (#[trigger] entries[i]).0@ != (#[trigger] entries[j]).0@
}

spec fn keyed_at<K: Key, V>(entries: Seq<(K, V)>, key: <K as View>::V, i: int) -> bool {
    0 <= i < entries.len() && entries[i].0@ == key
}

spec fn contents<K: Key, V>(entries: Seq<(K, V)>) -> Map<<K as View>::V, V> {
    Map::new(
        |key: <K as View>::V| exists|i: int| keyed_at(entries, key, i),
        |key: <K as View>::V| entries[choose|i: int| keyed_at(entries, key, i)].1,
    )
}

impl<K: Key, V> View for Table<K, V> {
    type V = Map<<K as View>::V, V>;

    closed spec fn view(&self) -> Map<<K as View>::V, V> {
        contents(self.entries@)
    }
}

/// An entry of a repeat-free list is what the map holds under its key.
proof fn lemma_entry<K: Key, V>(entries: Seq<(K, V)>, i: int)
    requires
        no_repeats(entries),
        0 <= i < entries.len(),
    ensures
        contents(entries).dom().contains(entries[i].0@),
        contents(entries)[entries[i].0@] == entries[i].1,
{
    let key = entries[i].0@;
    assert(keyed_at(entries, key, i));
    let j = choose|j: int| keyed_at(entries, key, j);
    assert(keyed_at(entries, key, j));
    if i < j {
        assert(entries[i].0@ != entries[j].0@);
    } else if j < i {
        assert(entries[j].0@ != entries[i].0@);
    }
}

impl<K: Key, V> Table<K, V> {
    #[verifier::type_invariant]
    spec fn inv(self) -> bool {
        no_repeats(self.entries@)
    }

    /// An empty table.
    pub fn new() -> (t: Self)
        ensures
            t@ == Map::<<K as View>::V, V>::empty(),
    {
        let t = Table { entries: Vec::new() };
        proof {
            assert forall|key: <K as View>::V| !t@.dom().contains(key) by {
                if exists|i: int| keyed_at(t.entries@, key, i) {
                    let i = choose|i: int| keyed_at(t.entries@, key, i);
                    assert(false);
                }
            }
            assert(t@ =~= Map::empty());
        }
        t
    }

    fn position(entries: &Vec<(K, V)>, key: &K) -> (p: Option<usize>)
        requires
            no_repeats(entries@),
        ensures
            match p {
                Some(i) => i < entries.len() && entries@[i as int].0@ == key@ && contents(
                    entries@,
                ).dom().contains(key@) && contents(entries@)[key@] == entries@[i as int].1,
                None => !contents(entries@).dom().contains(key@) && forall|i: int|
                    0 <= i < entries.len() ==> (#[trigger] entries@[i]).0@ != key@,
            },
    {
        let mut i: usize = 0;
        while i < entries.len()
            invariant
                i <= entries.len(),
                no_repeats(entries@),
                forall|j: int| 0 <= j < i ==> (#[trigger] entries@[j]).0@ != key@,
            decreases entries.len() - i,
        {
            if entries[i].0.same(key) {
                proof {
                    lemma_entry(entries@, i as int);
                }
                return Some(i);
            }
            i += 1;
        }
        proof {
            if exists|j: int| keyed_at(entries@, key@, j) {
                let j = choose|j: int| keyed_at(entries@, key@, j);
                assert(entries@[j].0@ != key@);
            }
        }
        None
    }

    /// The value under `key`, if there is one.
    pub fn get(&self, key: &K) -> (v: Option<&V>)
        ensures
            match v {
                Some(x) => self@.dom().contains(key@) && *x == self@[key@],
                None => !self@.dom().contains(key@),
            },
    {
        proof {
            use_type_invariant(self);
        }
        match Self::position(&self.entries, key) {
            Some(i) => Some(&self.entries[i].1),
            None => None,
        }
    }

    /// Whether there is a value under `key`.
    pub fn has(&self, key: &K) -> (b: bool)
        ensures
            b == self@.dom().contains(key@),
    {
        proof {
            use_type_invariant(self);
        }
        Self::position(&self.entries, key).is_some()
    }

    /// Put `value` under `key`, in place of what was there.
    pub fn set(&mut self, key: K, value: V)
        ensures
            final(self)@ == old(self)@.insert(key@, value),
    {
        proof {
            use_type_invariant(&*self);
        }
        let mut entries: Vec<(K, V)> = Vec::new();
        std::mem::swap(&mut entries, &mut self.entries);
        let ghost before = entries@;
        match Self::position(&entries, &key) {
            Some(i) => {
                entries.set(i, (key, value));
                proof {
                    assert(no_repeats(entries@));
                    lemma_same_after_set(before, i as int, key, value);
                }
            },
            None => {
                entries.push((key, value));
                proof {
                    lemma_same_after_push(before, key, value);
                }
            },
        }
        self.entries = entries;
    }

    /// Take away the value under `key`, if there is one.
    pub fn remove(&mut self, key: &K)
        ensures
            final(self)@ == old(self)@.remove(key@),
    {
        proof {
            use_type_invariant(&*self);
        }
        let mut entries: Vec<(K, V)> = Vec::new();
        std::mem::swap(&mut entries, &mut self.entries);
        let ghost before = entries@;
        match Self::position(&entries, key) {
            Some(i) => {
                let _ = entries.remove(i);
                proof {
                    lemma_same_after_remove(before, i as int);
                }
            },
            None => {
                proof {
                    assert(contents(before).remove(key@) =~= contents(before));
                }
            },
        }
        self.entries = entries;
    }
}

proof fn lemma_same_after_set<K: Key, V>(before: Seq<(K, V)>, i: int, key: K, value: V)
    requires
        no_repeats(before),
        0 <= i < before.len(),
        before[i].0@ == key@,
    ensures
        no_repeats(before.update(i, (key, value))),
        contents(before.update(i, (key, value))) == contents(before).insert(key@, value),
{
    let after = before.update(i, (key, value));
    assert forall|k: <K as View>::V| #[trigger]
        contents(after).dom().contains(k) == contents(before).insert(key@, value).dom().contains(
            k,
        ) && (contents(after).dom().contains(k) ==> contents(after)[k] == contents(before).insert(
        key@,
        value,
    )[k]) by {
        if k == key@ {
            lemma_entry(after, i);
        } else if contents(after).dom().contains(k) {
            let j = choose|j: int| keyed_at(after, k, j);
            assert(keyed_at(before, k, j));
            lemma_entry(before, j);
            lemma_entry(after, j);
        } else if contents(before).dom().contains(k) {
            let j = choose|j: int| keyed_at(before, k, j);
            assert(keyed_at(after, k, j));
        }
    }
    assert(contents(after) =~= contents(before).insert(key@, value));
}

proof fn lemma_same_after_push<K: Key, V>(before: Seq<(K, V)>, key: K, value: V)
    requires
        no_repeats(before),
        forall|i: int| 0 <= i < before.len() ==> (#[trigger] before[i]).0@ != key@,
    ensures
        no_repeats(before.push((key, value))),
        contents(before.push((key, value))) == contents(before).insert(key@, value),
{
    let after = before.push((key, value));
    let n = before.len() as int;
    assert forall|k: <K as View>::V| #[trigger]
        contents(after).dom().contains(k) == contents(before).insert(key@, value).dom().contains(
            k,
        ) && (contents(after).dom().contains(k) ==> contents(after)[k] == contents(before).insert(
        key@,
        value,
    )[k]) by {
        if k == key@ {
            lemma_entry(after, n);
        } else if contents(after).dom().contains(k) {
            let j = choose|j: int| keyed_at(after, k, j);
            assert(keyed_at(before, k, j));
            lemma_entry(before, j);
            lemma_entry(after, j);
        } else if contents(before).dom().contains(k) {
            let j = choose|j: int| keyed_at(before, k, j);
            assert(keyed_at(after, k, j));
        }
    }
    assert(contents(after) =~= contents(before).insert(key@, value));
}

proof fn lemma_same_after_remove<K: Key, V>(before: Seq<(K, V)>, i: int)
    requires
        no_repeats(before),
        0 <= i < before.len(),
    ensures
        no_repeats(before.remove(i)),
        contents(before.remove(i)) == contents(before).remove(before[i].0@),
{
    let after = before.remove(i);
    let key = before[i].0@;
    assert forall|a: int, b: int| 0 <= a < b < after.len() implies (#[trigger] after[a]).0@ != (
    #[trigger] after[b]).0@ by {
        let a0 = if a < i {
            a
        } else {
            a + 1
        };
        let b0 = if b < i {
            b
        } else {
            b + 1
        };
        assert(after[a] == before[a0] && after[b] == before[b0]);
    }
    assert forall|k: <K as View>::V| #[trigger]
        contents(after).dom().contains(k) == contents(before).remove(key).dom().contains(k) && (
    contents(after).dom().contains(k) ==> contents(after)[k] == contents(before).remove(
        key,
    )[k]) by {
        if contents(after).dom().contains(k) {
            let j = choose|j: int| keyed_at(after, k, j);
            assert(keyed_at(after, k, j));
            let j0 = if j < i {
                j
            } else {
                j + 1
            };
            assert(before[j0] == after[j]);
            assert(keyed_at(before, k, j0));
            lemma_entry(before, j0);
            lemma_entry(after, j);
            if j0 < i {
                assert(before[j0].0@ != before[i].0@);
            } else {
                assert(before[i].0@ != before[j0].0@);
            }
        } else if contents(before).dom().contains(k) && k != key {
            let j = choose|j: int| keyed_at(before, k, j);
            assert(keyed_at(before, k, j));
            assert(j != i);
            let j1 = if j < i {
                j
            } else {
                j - 1
            };
            assert(after[j1] == before[j]);
            assert(keyed_at(after, k, j1));
        }
    }
    assert(contents(after) =~= contents(before).remove(key));
}

} // verus!

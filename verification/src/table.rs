//! A small keyed store: a finite map kept as a list of entries.
//!
//! The store stands for a `Map` from keys to values.  Entries stay in the
//! order in which their keys were first inserted.

use crate::address::Key;
use vstd::prelude::*;

verus! {

/// Whether no two entries of `s` have the same key.
pub open spec fn distinct_keys<K, V>(s: Seq<(K, V)>) -> bool {
    forall|i: int, j: int| 0 <= i < s.len() && 0 <= j < s.len() && s[i].0 == s[j].0 ==> i == j
}

/// Whether entry `i` of `s` has key `k`.
pub open spec fn keyed_at<K, V>(s: Seq<(K, V)>, k: K, i: int) -> bool {
    0 <= i < s.len() && s[i].0 == k
}

/// Whether some entry of `s` has key `k`.
pub open spec fn has_key<K, V>(s: Seq<(K, V)>, k: K) -> bool {
    exists|i: int| keyed_at(s, k, i)
}

/// The index of an entry of `s` with key `k`.
pub open spec fn index_of<K, V>(s: Seq<(K, V)>, k: K) -> int {
    choose|i: int| keyed_at(s, k, i)
}

/// The map that the entries `s` stand for.
pub open spec fn entries_to_map<K, V>(s: Seq<(K, V)>) -> Map<K, V> {
    Map::new(|k: K| has_key(s, k), |k: K| s[index_of(s, k)].1)
}

/// With distinct keys, looking up the key of entry `i` finds entry `i`.
pub proof fn lemma_index_of<K, V>(s: Seq<(K, V)>, i: int)
    requires
        distinct_keys(s),
        0 <= i < s.len(),
    ensures
        has_key(s, s[i].0),
        index_of(s, s[i].0) == i,
        entries_to_map(s).contains_key(s[i].0),
        entries_to_map(s)[s[i].0] == s[i].1,
{
    assert(keyed_at(s, s[i].0, i));
    let j = index_of(s, s[i].0);
    assert(keyed_at(s, s[i].0, j));
}

/// Appending an entry with a fresh key inserts it into the map.
pub proof fn lemma_push_entry<K, V>(s: Seq<(K, V)>, k: K, v: V)
    requires
        distinct_keys(s),
        !has_key(s, k),
    ensures
        distinct_keys(s.push((k, v))),
        entries_to_map(s.push((k, v))) == entries_to_map(s).insert(k, v),
{
    let t = s.push((k, v));
    assert forall|i: int, j: int| 0 <= i < t.len() && 0 <= j < t.len() && t[i].0 == t[j].0 implies i
        == j by {
        if i < s.len() && j == s.len() {
            assert(keyed_at(s, k, i));
        }
        if j < s.len() && i == s.len() {
            assert(keyed_at(s, k, j));
        }
    }
    let m = entries_to_map(s).insert(k, v);
    assert forall|q: K| entries_to_map(t).contains_key(q) <==> m.contains_key(q) by {
        if has_key(t, q) {
            let i = index_of(t, q);
            assert(keyed_at(t, q, i));
            if i < s.len() {
                assert(keyed_at(s, q, i));
            }
        }
        if has_key(s, q) {
            let i = index_of(s, q);
            assert(keyed_at(s, q, i));
            assert(keyed_at(t, q, i));
        }
        if q == k {
            assert(keyed_at(t, q, s.len() as int));
        }
    }
    assert forall|q: K| entries_to_map(t).contains_key(q) implies entries_to_map(t)[q] == m[q] by {
        let i = index_of(t, q);
        assert(keyed_at(t, q, i));
        lemma_index_of(t, i);
        if i < s.len() {
            lemma_index_of(s, i);
        }
    }
    assert(entries_to_map(t) =~= m);
}

/// Replacing the value of entry `i` overwrites its key in the map.
pub proof fn lemma_update_entry<K, V>(s: Seq<(K, V)>, i: int, v: V)
    requires
        distinct_keys(s),
        0 <= i < s.len(),
    ensures
        distinct_keys(s.update(i, (s[i].0, v))),
        entries_to_map(s.update(i, (s[i].0, v))) == entries_to_map(s).insert(s[i].0, v),
{
    let k = s[i].0;
    let t = s.update(i, (k, v));
    assert forall|a: int, b: int| 0 <= a < t.len() && 0 <= b < t.len() && t[a].0 == t[b].0 implies a
        == b by {
        assert(t[a].0 == s[a].0);
        assert(t[b].0 == s[b].0);
    }
    let m = entries_to_map(s).insert(k, v);
    assert forall|q: K| entries_to_map(t).contains_key(q) <==> m.contains_key(q) by {
        if has_key(t, q) {
            let j = index_of(t, q);
            assert(keyed_at(t, q, j));
            assert(t[j].0 == s[j].0);
            assert(keyed_at(s, q, j));
        }
        if has_key(s, q) {
            let j = index_of(s, q);
            assert(keyed_at(s, q, j));
            assert(t[j].0 == s[j].0);
            assert(keyed_at(t, q, j));
        }
        if q == k {
            assert(keyed_at(t, q, i));
        }
    }
    assert forall|q: K| entries_to_map(t).contains_key(q) implies entries_to_map(t)[q] == m[q] by {
        let j = index_of(t, q);
        assert(keyed_at(t, q, j));
        lemma_index_of(t, j);
        assert(t[j].0 == s[j].0);
        lemma_index_of(s, j);
    }
    assert(entries_to_map(t) =~= m);
}

/// Removing entry `i` removes its key from the map.
pub proof fn lemma_remove_entry<K, V>(s: Seq<(K, V)>, i: int)
    requires
        distinct_keys(s),
        0 <= i < s.len(),
    ensures
        distinct_keys(s.remove(i)),
        entries_to_map(s.remove(i)) == entries_to_map(s).remove(s[i].0),
{
    let k = s[i].0;
    let t = s.remove(i);
    assert forall|a: int| 0 <= a < t.len() implies t[a] == s[if a < i {
        a
    } else {
        a + 1
    }] by {}
    assert forall|a: int, b: int| 0 <= a < t.len() && 0 <= b < t.len() && t[a].0 == t[b].0 implies a
        == b by {
        let a2 = if a < i {
            a
        } else {
            a + 1
        };
        let b2 = if b < i {
            b
        } else {
            b + 1
        };
        assert(s[a2].0 == s[b2].0);
    }
    let m = entries_to_map(s).remove(k);
    assert forall|q: K| entries_to_map(t).contains_key(q) <==> m.contains_key(q) by {
        if has_key(t, q) {
            let j = index_of(t, q);
            assert(keyed_at(t, q, j));
            let j2 = if j < i {
                j
            } else {
                j + 1
            };
            assert(keyed_at(s, q, j2));
        }
        if has_key(s, q) && q != k {
            let j = index_of(s, q);
            assert(keyed_at(s, q, j));
            let j2 = if j < i {
                j
            } else {
                j - 1
            };
            assert(keyed_at(t, q, j2));
        }
    }
    assert forall|q: K| entries_to_map(t).contains_key(q) implies entries_to_map(t)[q] == m[q] by {
        let j = index_of(t, q);
        assert(keyed_at(t, q, j));
        lemma_index_of(t, j);
        let j2 = if j < i {
            j
        } else {
            j + 1
        };
        lemma_index_of(s, j2);
    }
    assert(entries_to_map(t) =~= m);
}

/// A finite map from keys to values.
pub struct Table<K, V> {
    entries: Vec<(K, V)>,
}

impl<K: Key, V> Table<K, V> {
    /// Every key occurs once.
    pub closed spec fn wf(&self) -> bool {
        distinct_keys(self.entries@)
    }

    /// The map this table stands for.
    pub closed spec fn view(&self) -> Map<K, V> {
        entries_to_map(self.entries@)
    }

    /// The number of entries.
    pub closed spec fn spec_len(&self) -> nat {
        self.entries@.len()
    }

    /// The empty table.
    pub fn new() -> (r: Table<K, V>)
        ensures
            r.wf(),
            r@ == Map::<K, V>::empty(),
            r.spec_len() == 0,
    {
        let r = Table { entries: Vec::new() };
        proof {
            assert forall|k: K| !has_key(r.entries@, k) by {
                if has_key(r.entries@, k) {
                    let i = index_of(r.entries@, k);
                    assert(keyed_at(r.entries@, k, i));
                }
            }
            assert(r@ =~= Map::<K, V>::empty());
        }
        r
    }

    /// The number of entries.
    pub fn len(&self) -> (r: usize)
        ensures
            r == self.spec_len(),
    {
        self.entries.len()
    }

    /// The keys of the table, in the order in which they were first inserted.
    pub fn keys(&self) -> (r: Vec<K>)
        requires
            self.wf(),
        ensures
            r@.no_duplicates(),
            r@.len() == self.spec_len(),
            forall|k: K| r@.contains(k) <==> self@.contains_key(k),
    {
        let mut out: Vec<K> = Vec::new();
        let mut i: usize = 0;
        while i < self.entries.len()
            invariant
                i <= self.entries.len(),
                out@.len() == i,
                forall|j: int| 0 <= j < i ==> out@[j] == self.entries@[j].0,
            decreases self.entries.len() - i,
        {
            out.push(self.entries[i].0);
            i += 1;
        }
        proof {
            assert forall|a: int, b: int| 0 <= a < out@.len() && 0 <= b < out@.len() && a != b implies out@[a]
                != out@[b] by {
                assert(self.entries@[a].0 != self.entries@[b].0);
            }
            assert forall|k: K| out@.contains(k) <==> self@.contains_key(k) by {
                if out@.contains(k) {
                    let j = choose|j: int| 0 <= j < out@.len() && out@[j] == k;
                    assert(keyed_at(self.entries@, k, j));
                }
                if has_key(self.entries@, k) {
                    let j = index_of(self.entries@, k);
                    assert(keyed_at(self.entries@, k, j));
                    assert(out@[j] == k);
                }
            }
        }
        out
    }

    /// The position of `key` among the entries, if it is there.
    fn find(&self, key: &K) -> (r: Option<usize>)
        requires
            self.wf(),
        ensures
            match r {
                Some(i) => keyed_at(self.entries@, *key, i as int),
                None => !has_key(self.entries@, *key),
            },
    {
        let mut i: usize = 0;
        while i < self.entries.len()
            invariant
                i <= self.entries.len(),
                forall|j: int| 0 <= j < i ==> self.entries@[j].0 != *key,
            decreases self.entries.len() - i,
        {
            if self.entries[i].0.same(key) {
                return Some(i);
            }
            i += 1;
        }
        proof {
            if has_key(self.entries@, *key) {
                let j = index_of(self.entries@, *key);
                assert(keyed_at(self.entries@, *key, j));
            }
        }
        None
    }

    /// Whether the table has an entry for `key`.
    pub fn contains_key(&self, key: &K) -> (r: bool)
        requires
            self.wf(),
        ensures
            r == self@.contains_key(*key),
    {
        self.find(key).is_some()
    }

    /// The value stored for `key`, if any.
    pub fn get(&self, key: &K) -> (r: Option<&V>)
        requires
            self.wf(),
        ensures
            match r {
                Some(v) => self@.contains_key(*key) && *v == self@[*key],
                None => !self@.contains_key(*key),
            },
    {
        match self.find(key) {
            Some(i) => {
                proof {
                    lemma_index_of(self.entries@, i as int);
                }
                Some(&self.entries[i].1)
            },
            None => None,
        }
    }

    /// Stores `value` for `key`, in place of any value stored for it before.
    pub fn insert(&mut self, key: K, value: V)
        requires
            old(self).wf(),
        ensures
            final(self).wf(),
            final(self)@ == old(self)@.insert(key, value),
    {
        match self.find(&key) {
            Some(i) => {
                proof {
                    lemma_update_entry(self.entries@, i as int, value);
                }
                self.entries.set(i, (key, value));
            },
            None => {
                proof {
                    lemma_push_entry(self.entries@, key, value);
                }
                self.entries.push((key, value));
            },
        }
    }

    /// Removes the entry for `key` and returns its value, if there was one.
    pub fn remove(&mut self, key: &K) -> (r: Option<V>)
        requires
            old(self).wf(),
        ensures
            final(self).wf(),
            final(self)@ == old(self)@.remove(*key),
            match r {
                Some(v) => old(self)@.contains_key(*key) && v == old(self)@[*key],
                None => !old(self)@.contains_key(*key),
            },
    {
        match self.find(key) {
            Some(i) => {
                proof {
                    lemma_index_of(self.entries@, i as int);
                    lemma_remove_entry(self.entries@, i as int);
                }
                let entry = self.entries.remove(i);
                Some(entry.1)
            },
            None => {
                proof {
                    assert(self@.remove(*key) =~= self@);
                }
                None
            },
        }
    }
}

} // verus!

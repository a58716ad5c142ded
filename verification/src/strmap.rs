//! A small map from strings to copyable values, kept as a list of distinct
//! keys in insertion order.

use vstd::prelude::*;
use crate::text::eq_str;

verus! {

/// Map from strings to values; no key occurs twice.
#[derive(Debug)]
pub struct StrMap<V> {
    entries: Vec<(String, V)>,
}

/// The keys of a list of entries are pairwise distinct.
pub open spec fn distinct_keys<V>(s: Seq<(String, V)>) -> bool {
    forall|i: int, j: int| 0 <= i < s.len() && 0 <= j < s.len() && i != j ==> s[i].0@ != s[j].0@
}

/// The map that a list of entries with distinct keys stands for.
pub open spec fn entries_map<V>(s: Seq<(String, V)>) -> Map<Seq<char>, V> {
    Map::new(
        |k: Seq<char>| exists|i: int| 0 <= i < s.len() && s[i].0@ == k,
        |k: Seq<char>| s[choose|i: int| 0 <= i < s.len() && s[i].0@ == k].1,
    )
}

proof fn lemma_entry_value<V>(s: Seq<(String, V)>, i: int)
    requires
        distinct_keys(s),
        0 <= i < s.len(),
    ensures
        entries_map(s).contains_key(s[i].0@),
        entries_map(s)[s[i].0@] == s[i].1,
{
    let k = s[i].0@;
    assert(exists|j: int| 0 <= j < s.len() && s[j].0@ == k);
    let j = choose|j: int| 0 <= j < s.len() && s[j].0@ == k;
    assert(j == i);
}

impl<V> View for StrMap<V> {
    type V = Map<Seq<char>, V>;

    closed spec fn view(&self) -> Map<Seq<char>, V> {
        entries_map(self.entries@)
    }
}

impl<V> StrMap<V> {
    #[verifier::type_invariant]
    closed spec fn inv(&self) -> bool {
        distinct_keys(self.entries@)
    }
}

impl<V> StrMap<V> {
    /// The keys in the order they were first inserted.
    pub closed spec fn key_seq(&self) -> Seq<Seq<char>> {
        self.entries@.map_values(|e: (String, V)| e.0@)
    }

    /// An empty map.
    pub fn new() -> (m: Self)
        ensures
            m@ == Map::<Seq<char>, V>::empty(),
            m.key_seq().len() == 0,
    {
        let m = StrMap { entries: Vec::new() };
        assert(m@ =~= Map::<Seq<char>, V>::empty());
        m
    }

    fn find(&self, k: &str) -> (r: Option<usize>)
        ensures
            match r {
                Some(i) => i < self.entries@.len() && self.entries@[i as int].0@ == k@,
                None => forall|i: int| 0 <= i < self.entries@.len() ==> self.entries@[i].0@ != k@,
            },
    {
        let mut i: usize = 0;
        while i < self.entries.len()
            invariant
                i <= self.entries@.len(),
                forall|j: int| 0 <= j < i ==> self.entries@[j].0@ != k@,
            decreases self.entries@.len() - i,
        {
            if eq_str(self.entries[i].0.as_str(), k) {
                return Some(i);
            }
            i += 1;
        }
        None
    }

    /// The value stored under `k`, by reference.
    pub fn get_ref(&self, k: &str) -> (r: Option<&V>)
        ensures
            match r {
                Some(v) => self@.contains_key(k@) && self@[k@] == *v,
                None => !self@.contains_key(k@),
            },
    {
        proof {
            use_type_invariant(self);
        }
        match self.find(k) {
            Some(i) => {
                proof {
                    lemma_entry_value(self.entries@, i as int);
                }
                Some(&self.entries[i].1)
            },
            None => None,
        }
    }

    /// Whether `k` has a value.
    pub fn contains_key(&self, k: &str) -> (r: bool)
        ensures
            r == self@.contains_key(k@),
    {
        match self.find(k) {
            Some(i) => {
                proof {
                    use_type_invariant(self);
                    lemma_entry_value(self.entries@, i as int);
                }
                true
            },
            None => false,
        }
    }

    /// Stores `v` under `k`, replacing what was there.
    pub fn insert(&mut self, k: &str, v: V)
        ensures
            final(self)@ == old(self)@.insert(k@, v),
    {
        proof {
            use_type_invariant(&*self);
        }
        let ghost old_entries = self.entries@;
        match self.find(k) {
            Some(i) => {
                let mut entries: Vec<(String, V)> = Vec::new();
                std::mem::swap(&mut entries, &mut self.entries);
                entries.set(i, (k.to_string(), v));
                let ghost ne = entries@;
                assert(ne == old_entries.update(i as int, (ne[i as int].0, v)));
                assert(distinct_keys(ne));
                proof {
                    assert forall|key: Seq<char>| #![auto]
                        entries_map(ne).contains_key(key) == entries_map(
                            old_entries,
                        ).insert(k@, v).contains_key(key) by {
                        if key != k@ && entries_map(old_entries).contains_key(key) {
                            let j = choose|j: int| 0 <= j < old_entries.len() && old_entries[j].0@ == key;
                            assert(ne[j].0@ == key);
                        }
                        if key != k@ && entries_map(ne).contains_key(key) {
                            let j = choose|j: int| 0 <= j < ne.len() && ne[j].0@ == key;
                            assert(old_entries[j].0@ == key);
                        }
                    }
                    assert forall|key: Seq<char>| #[trigger]
                        entries_map(ne).contains_key(key) implies entries_map(ne)[key]
                        == entries_map(old_entries).insert(k@, v)[key] by {
                        let j = choose|j: int| 0 <= j < ne.len() && ne[j].0@ == key;
                        lemma_entry_value(ne, j);
                        if j != i {
                            lemma_entry_value(old_entries, j);
                        }
                    }
                    assert(entries_map(ne) =~= entries_map(old_entries).insert(k@, v));
                }
                self.entries = entries;
            },
            None => {
                let mut entries: Vec<(String, V)> = Vec::new();
                std::mem::swap(&mut entries, &mut self.entries);
                entries.push((k.to_string(), v));
                let ghost ne = entries@;
                assert(distinct_keys(ne));
                proof {
                    let n = old_entries.len() as int;
                    assert forall|key: Seq<char>| #![auto]
                        entries_map(ne).contains_key(key) == entries_map(
                            old_entries,
                        ).insert(k@, v).contains_key(key) by {
                        if key != k@ && entries_map(old_entries).contains_key(key) {
                            let j = choose|j: int| 0 <= j < old_entries.len() && old_entries[j].0@ == key;
                            assert(ne[j].0@ == key);
                        }
                        if key != k@ && entries_map(ne).contains_key(key) {
                            let j = choose|j: int| 0 <= j < ne.len() && ne[j].0@ == key;
                            assert(old_entries[j].0@ == key);
                        }
                        if key == k@ {
                            assert(ne[n].0@ == key);
                        }
                    }
                    assert forall|key: Seq<char>| #[trigger]
                        entries_map(ne).contains_key(key) implies entries_map(ne)[key]
                        == entries_map(old_entries).insert(k@, v)[key] by {
                        let j = choose|j: int| 0 <= j < ne.len() && ne[j].0@ == key;
                        lemma_entry_value(ne, j);
                        if j != n {
                            lemma_entry_value(old_entries, j);
                        }
                    }
                    assert(entries_map(ne) =~= entries_map(old_entries).insert(k@, v));
                }
                self.entries = entries;
            },
        }
    }

    /// Removes the value stored under `k`, returning it.
    pub fn remove(&mut self, k: &str) -> (r: Option<V>)
        ensures
            final(self)@ == old(self)@.remove(k@),
            match r {
                Some(v) => old(self)@.contains_key(k@) && old(self)@[k@] == v,
                None => !old(self)@.contains_key(k@),
            },
    {
        proof {
            use_type_invariant(&*self);
        }
        let ghost old_entries = self.entries@;
        match self.find(k) {
            Some(i) => {
                proof {
                    lemma_entry_value(old_entries, i as int);
                }
                let mut entries: Vec<(String, V)> = Vec::new();
                std::mem::swap(&mut entries, &mut self.entries);
                let removed = entries.remove(i);
                let ghost ne = entries@;
                assert(ne == old_entries.remove(i as int));
                assert(distinct_keys(ne)) by {
                    assert forall|a: int, b: int|
                        0 <= a < ne.len() && 0 <= b < ne.len() && a != b implies ne[a].0@
                        != ne[b].0@ by {
                        let a2 = if a < i { a } else { a + 1 };
                        let b2 = if b < i { b } else { b + 1 };
                        assert(ne[a] == old_entries[a2]);
                        assert(ne[b] == old_entries[b2]);
                    }
                }
                proof {
                    assert forall|key: Seq<char>| #![auto]
                        entries_map(ne).contains_key(key) == entries_map(old_entries).remove(
                            k@,
                        ).contains_key(key) by {
                        if key != k@ && entries_map(old_entries).contains_key(key) {
                            let j = choose|j: int| 0 <= j < old_entries.len() && old_entries[j].0@ == key;
                            assert(j != i);
                            let j2 = if j < i { j } else { j - 1 };
                            assert(ne[j2].0@ == key);
                        }
                        if entries_map(ne).contains_key(key) {
                            let j = choose|j: int| 0 <= j < ne.len() && ne[j].0@ == key;
                            let j2 = if j < i { j } else { j + 1 };
                            assert(old_entries[j2].0@ == key);
                            assert(key != k@);
                        }
                    }
                    assert forall|key: Seq<char>| #[trigger]
                        entries_map(ne).contains_key(key) implies entries_map(ne)[key]
                        == entries_map(old_entries).remove(k@)[key] by {
                        let j = choose|j: int| 0 <= j < ne.len() && ne[j].0@ == key;
                        lemma_entry_value(ne, j);
                        let j2 = if j < i { j } else { j + 1 };
                        assert(old_entries[j2] == ne[j]);
                        lemma_entry_value(old_entries, j2);
                    }
                    assert(entries_map(ne) =~= entries_map(old_entries).remove(k@));
                }
                self.entries = entries;
                Some(removed.1)
            },
            None => {
                assert(entries_map(old_entries).remove(k@) =~= entries_map(old_entries));
                None
            },
        }
    }

    /// The keys, in the order they were first inserted.
    pub fn keys(&self) -> (r: Vec<String>)
        ensures
            r@.len() == self.key_seq().len(),
            forall|i: int| 0 <= i < r@.len() ==> #[trigger] r@[i]@ == self.key_seq()[i],
            forall|k: Seq<char>|
                #![trigger self@.contains_key(k)]
                self@.contains_key(k) <==> exists|i: int| 0 <= i < r@.len() && r@[i]@ == k,
            forall|i: int, j: int|
                0 <= i < r@.len() && 0 <= j < r@.len() && i != j ==> #[trigger] r@[i]@ != #[trigger] r@[j]@,
    {
        proof {
            use_type_invariant(self);
        }
        let mut r: Vec<String> = Vec::new();
        let mut i: usize = 0;
        while i < self.entries.len()
            invariant
                i <= self.entries@.len(),
                r@.len() == i,
                forall|j: int| 0 <= j < i ==> #[trigger] r@[j]@ == self.entries@[j].0@,
            decreases self.entries@.len() - i,
        {
            r.push(self.entries[i].0.clone());
            i += 1;
        }
        proof {
            assert forall|k: Seq<char>|
                #![trigger self@.contains_key(k)]
                self@.contains_key(k) <==> exists|i: int| 0 <= i < r@.len() && r@[i]@ == k by {
                if self@.contains_key(k) {
                    let j = choose|j: int| 0 <= j < self.entries@.len() && self.entries@[j].0@ == k;
                    assert(r@[j]@ == k);
                }
                if exists|i: int| 0 <= i < r@.len() && r@[i]@ == k {
                    let j = choose|j: int| 0 <= j < r@.len() && r@[j]@ == k;
                    assert(self.entries@[j].0@ == k);
                }
            }
        }
        r
    }

    /// Every key of the map is one of `key_seq`, and the other way round.
    pub proof fn lemma_keys(&self)
        ensures
            forall|k: Seq<char>|
                #![trigger self@.contains_key(k)]
                self@.contains_key(k) <==> exists|i: int| 0 <= i < self.key_seq().len() && self.key_seq()[i] == k,
    {
        assert forall|k: Seq<char>| #![trigger self@.contains_key(k)]
            self@.contains_key(k) <==> exists|i: int| 0 <= i < self.key_seq().len() && self.key_seq()[i] == k by {
            if self@.contains_key(k) {
                let j = choose|j: int| 0 <= j < self.entries@.len() && self.entries@[j].0@ == k;
                assert(self.key_seq()[j] == k);
            }
        }
    }

    /// The entry at position `i` of `key_seq`.
    pub fn entry(&self, i: usize) -> (r: (&str, &V))
        requires
            i < self.key_seq().len(),
        ensures
            r.0@ == self.key_seq()[i as int],
            self@.contains_key(r.0@),
            self@[r.0@] == *r.1,
    {
        proof {
            use_type_invariant(self);
            lemma_entry_value(self.entries@, i as int);
        }
        (self.entries[i].0.as_str(), &self.entries[i].1)
    }

    /// Number of keys.
    pub fn len(&self) -> (n: usize)
        ensures
            n == self.key_seq().len(),
    {
        self.entries.len()
    }

}

impl<V: Clone> Clone for StrMap<V> {
    /// A copy with the same keys in the same order; each value is the
    /// clone of the value it copies.
    fn clone(&self) -> (r: Self)
        ensures
            r.key_seq() == self.key_seq(),
            r@.dom() == self@.dom(),
            forall|k: Seq<char>| #[trigger] r@.contains_key(k) ==> cloned::<V>(self@[k], r@[k]),
    {
        proof {
            use_type_invariant(self);
        }
        let mut entries: Vec<(String, V)> = Vec::new();
        let mut i: usize = 0;
        while i < self.entries.len()
            invariant
                i <= self.entries@.len(),
                distinct_keys(self.entries@),
                entries@.len() == i,
                forall|j: int| 0 <= j < i ==> #[trigger] entries@[j].0@ == self.entries@[j].0@,
                forall|j: int| 0 <= j < i ==> cloned::<V>(self.entries@[j].1, #[trigger] entries@[j].1),
            decreases self.entries@.len() - i,
        {
            let k = self.entries[i].0.clone();
            let v = self.entries[i].1.clone();
            entries.push((k, v));
            i += 1;
        }
        assert(entries@.map_values(|e: (String, V)| e.0@) =~= self.entries@.map_values(|e: (String, V)| e.0@));
        let r = StrMap { entries };
        proof {
            assert(distinct_keys(r.entries@));
            assert forall|k: Seq<char>| r@.contains_key(k) <==> self@.contains_key(k) by {
                if r@.contains_key(k) {
                    let j = choose|j: int| 0 <= j < r.entries@.len() && r.entries@[j].0@ == k;
                    assert(self.entries@[j].0@ == k);
                }
                if self@.contains_key(k) {
                    let j = choose|j: int| 0 <= j < self.entries@.len() && self.entries@[j].0@ == k;
                    assert(r.entries@[j].0@ == k);
                }
            }
            assert(r@.dom() =~= self@.dom());
            assert forall|k: Seq<char>| #[trigger] r@.contains_key(k) implies cloned::<V>(self@[k], r@[k]) by {
                let j = choose|j: int| 0 <= j < r.entries@.len() && r.entries@[j].0@ == k;
                lemma_entry_value(r.entries@, j);
                lemma_entry_value(self.entries@, j);
            }
        }
        r
    }
}

impl<V: Copy> StrMap<V> {
    /// The value stored under `k`.
    pub fn get(&self, k: &str) -> (r: Option<V>)
        ensures
            match r {
                Some(v) => self@.contains_key(k@) && self@[k@] == v,
                None => !self@.contains_key(k@),
            },
    {
        proof {
            use_type_invariant(self);
        }
        match self.find(k) {
            Some(i) => {
                proof {
                    lemma_entry_value(self.entries@, i as int);
                }
                Some(self.entries[i].1)
            },
            None => None,
        }
    }

    /// The entries, in the order their keys were first inserted.
    pub fn to_vec(&self) -> (r: Vec<(String, V)>)
        ensures
            r@.len() == self.key_seq().len(),
            forall|i: int| 0 <= i < r@.len() ==> #[trigger] r@[i].0@ == self.key_seq()[i]
                && self@.contains_key(r@[i].0@) && self@[r@[i].0@] == r@[i].1,
            forall|k: Seq<char>|
                #![trigger self@.contains_key(k)]
                self@.contains_key(k) ==> exists|i: int| 0 <= i < r@.len() && r@[i].0@ == k,
    {
        proof {
            use_type_invariant(self);
        }
        let mut r: Vec<(String, V)> = Vec::new();
        let mut i: usize = 0;
        while i < self.entries.len()
            invariant
                i <= self.entries@.len(),
                distinct_keys(self.entries@),
                r@.len() == i,
                forall|j: int| 0 <= j < i ==> #[trigger] r@[j].0@ == self.entries@[j].0@
                    && r@[j].1 == self.entries@[j].1,
            decreases self.entries@.len() - i,
        {
            r.push((self.entries[i].0.clone(), self.entries[i].1));
            i += 1;
        }
        proof {
            assert forall|j: int| 0 <= j < r@.len() implies #[trigger] r@[j].0@ == self.key_seq()[j]
                && self@.contains_key(r@[j].0@) && self@[r@[j].0@] == r@[j].1 by {
                lemma_entry_value(self.entries@, j);
            }
            assert forall|k: Seq<char>|
                #![trigger self@.contains_key(k)]
                self@.contains_key(k) implies exists|i: int| 0 <= i < r@.len() && r@[i].0@ == k by {
                let j = choose|j: int| 0 <= j < self.entries@.len() && self.entries@[j].0@ == k;
                assert(r@[j].0@ == k);
            }
        }
        r
    }
}

} // verus!

//! The persistence primitive every contract component is built on: a
//! string-keyed map with get/set/delete and a scan in storage order.
//!
//! Entries are kept in the order they were first stored; a key written
//! again keeps its place.  The mathematical model is the pair of the
//! entry sequence (`entries_seq`) and the derived finite map (`as_map`).

use vstd::prelude::*;

verus! {

pub struct StrMap<V> {
    entries: Vec<(String, V)>,
}

impl<V> StrMap<V> {
    /// The stored entries, in storage order.
    pub closed spec fn entries_seq(self) -> Seq<(String, V)> {
        self.entries@
    }

    /// The stored keys, in storage order.
    pub open spec fn keys_seq(self) -> Seq<Seq<char>> {
        self.entries_seq().map(|i: int, e: (String, V)| e.0@)
    }

    /// Keys are pairwise distinct.
    pub open spec fn wf(self) -> bool {
        forall|i: int, j: int|
            0 <= i < self.entries_seq().len() && 0 <= j < self.entries_seq().len() && i != j
                ==> self.entries_seq()[i].0@ != self.entries_seq()[j].0@
    }

    pub open spec fn spec_len(self) -> nat {
        self.entries_seq().len()
    }

    pub open spec fn contains_key(self, k: Seq<char>) -> bool {
        exists|i: int| 0 <= i < self.spec_len() && self.entries_seq()[i].0@ == k
    }

    /// The index of the entry holding key `k`, meaningful when the key is present.
    pub open spec fn spec_index_of(self, k: Seq<char>) -> int {
        choose|i: int| 0 <= i < self.spec_len() && self.entries_seq()[i].0@ == k
    }

    /// The value stored under `k`, meaningful when the key is present.
    pub open spec fn spec_get(self, k: Seq<char>) -> V {
        self.entries_seq()[self.spec_index_of(k)].1
    }

    /// The finite-map model of the store.
    pub open spec fn as_map(self) -> Map<Seq<char>, V> {
        Map::new(|k: Seq<char>| self.contains_key(k), |k: Seq<char>| self.spec_get(k))
    }

    pub fn new() -> (r: StrMap<V>)
        ensures
            r.wf(),
            r.entries_seq() == Seq::<(String, V)>::empty(),
            forall|k: Seq<char>| !r.contains_key(k),
            r.as_map() == Map::<Seq<char>, V>::empty(),
    {
        let r = StrMap { entries: Vec::new() };
        proof {
            assert(r.as_map() =~= Map::<Seq<char>, V>::empty());
        }
        r
    }

    pub fn len(&self) -> (n: usize)
        ensures
            n == self.spec_len(),
    {
        self.entries.len()
    }

    /// The position of `key`, or `None` when it is absent.
    pub fn index_of(&self, key: &String) -> (r: Option<usize>)
        ensures
            match r {
                Some(i) => i < self.spec_len() && self.entries_seq()[i as int].0@ == key@,
                None => !self.contains_key(key@),
            },
    {
        let mut i: usize = 0;
        while i < self.entries.len()
            invariant
                i <= self.spec_len(),
                forall|j: int| 0 <= j < i ==> self.entries_seq()[j].0@ != key@,
            decreases self.spec_len() - i,
        {
            if self.entries[i].0 == *key {
                return Some(i);
            }
            i = i + 1;
        }
        None
    }

    pub fn key_at(&self, i: usize) -> (k: &String)
        requires
            i < self.spec_len(),
        ensures
            k@ == self.entries_seq()[i as int].0@,
    {
        &self.entries[i].0
    }

    pub fn value_at(&self, i: usize) -> (v: &V)
        requires
            i < self.spec_len(),
        ensures
            *v == self.entries_seq()[i as int].1,
    {
        &self.entries[i].1
    }

    /// Under distinct keys, an entry's position is what `spec_index_of`
    /// names, and its value is what `spec_get` names.
    pub proof fn lemma_entry_is_get(self, i: int)
        requires
            self.wf(),
            0 <= i < self.spec_len(),
        ensures
            self.spec_index_of(self.entries_seq()[i].0@) == i,
            self.contains_key(self.entries_seq()[i].0@),
            self.spec_get(self.entries_seq()[i].0@) == self.entries_seq()[i].1,
    {
        let k = self.entries_seq()[i].0@;
        assert(self.contains_key(k));
        let j = self.spec_index_of(k);
        assert(0 <= j < self.spec_len() && self.entries_seq()[j].0@ == k);
        assert(j == i);
    }

    /// Overwrite the value at position `i`; the key keeps its place.
    pub fn set_at(&mut self, i: usize, v: V)
        requires
            old(self).wf(),
            i < old(self).spec_len(),
        ensures
            final(self).wf(),
            final(self).entries_seq() == old(self).entries_seq().update(
                i as int,
                (old(self).entries_seq()[i as int].0, v),
            ),
            final(self).keys_seq() == old(self).keys_seq(),
            final(self).contains_key(old(self).entries_seq()[i as int].0@),
            final(self).spec_get(old(self).entries_seq()[i as int].0@) == v,
            forall|k2: Seq<char>| #[trigger]
                final(self).contains_key(k2) == old(self).contains_key(k2),
            forall|k2: Seq<char>|
                k2 != old(self).entries_seq()[i as int].0@ && old(self).contains_key(k2)
                    ==> #[trigger] final(self).spec_get(k2) == old(self).spec_get(k2),
            final(self).as_map() == old(self).as_map().insert(
                old(self).entries_seq()[i as int].0@,
                v,
            ),
    {
        let ghost k: Seq<char> = self.entries@[i as int].0@;
        let entry = &mut self.entries[i];
        entry.1 = v;
        proof {
            assert(final(self).keys_seq() =~= old(self).keys_seq());
            assert forall|k2: Seq<char>| #[trigger]
                final(self).contains_key(k2) == old(self).contains_key(k2) by {
                assert forall|j: int| 0 <= j < old(self).spec_len() implies
                    final(self).entries_seq()[j].0@ == old(self).entries_seq()[j].0@ by {}
            }
            final(self).lemma_entry_is_get(i as int);
            assert forall|k2: Seq<char>|
                k2 != k && old(self).contains_key(k2) implies #[trigger] final(self).spec_get(k2)
                    == old(self).spec_get(k2) by {
                let j0 = old(self).spec_index_of(k2);
                old(self).lemma_entry_is_get(j0);
                assert(final(self).entries_seq()[j0].0@ == k2);
                final(self).lemma_entry_is_get(j0);
            }
            assert(final(self).as_map() =~= old(self).as_map().insert(k, v));
        }
    }

    /// Delete the entry at position `i`; later entries move up.
    pub fn remove_at(&mut self, i: usize) -> (e: (String, V))
        requires
            old(self).wf(),
            i < old(self).spec_len(),
        ensures
            final(self).wf(),
            e == old(self).entries_seq()[i as int],
            final(self).entries_seq() == old(self).entries_seq().remove(i as int),
            final(self).keys_seq() == old(self).keys_seq().remove(i as int),
            !final(self).contains_key(old(self).entries_seq()[i as int].0@),
            forall|k2: Seq<char>|
                k2 != old(self).entries_seq()[i as int].0@
                    ==> #[trigger] final(self).contains_key(k2) == old(self).contains_key(k2),
            forall|k2: Seq<char>|
                k2 != old(self).entries_seq()[i as int].0@ && old(self).contains_key(k2)
                    ==> #[trigger] final(self).spec_get(k2) == old(self).spec_get(k2),
            final(self).as_map() == old(self).as_map().remove(
                old(self).entries_seq()[i as int].0@,
            ),
    {
        let ghost k: Seq<char> = self.entries@[i as int].0@;
        let e = self.entries.remove(i);
        proof {
            assert(final(self).keys_seq() =~= old(self).keys_seq().remove(i as int));
            assert(final(self).wf()) by {
                assert forall|a: int, b: int|
                    0 <= a < final(self).spec_len() && 0 <= b < final(self).spec_len() && a != b
                        implies final(self).entries_seq()[a].0@ != final(self).entries_seq()[b].0@
                    by {
                    let a0: int = if a < i { a } else { a + 1 };
                    let b0: int = if b < i { b } else { b + 1 };
                    assert(final(self).entries_seq()[a] == old(self).entries_seq()[a0]);
                    assert(final(self).entries_seq()[b] == old(self).entries_seq()[b0]);
                }
            }
            assert forall|k2: Seq<char>| final(self).contains_key(k2) implies
                old(self).contains_key(k2) && k2 != k by {
                let j = choose|j: int|
                    0 <= j < final(self).spec_len() && final(self).entries_seq()[j].0@ == k2;
                if j < i {
                    assert(old(self).entries_seq()[j].0@ == k2);
                } else {
                    assert(old(self).entries_seq()[j + 1].0@ == k2);
                }
            }
            assert forall|k2: Seq<char>| k2 != k && old(self).contains_key(k2) implies #[trigger]
                final(self).contains_key(k2) by {
                let j = old(self).spec_index_of(k2);
                old(self).lemma_entry_is_get(j);
                if j < i {
                    assert(final(self).entries_seq()[j].0@ == k2);
                } else {
                    assert(final(self).entries_seq()[j - 1].0@ == k2);
                }
            }
            assert forall|k2: Seq<char>| k2 != k && old(self).contains_key(k2) implies #[trigger]
                final(self).spec_get(k2) == old(self).spec_get(k2) by {
                assert(final(self).contains_key(k2));
                let j = final(self).spec_index_of(k2);
                assert(0 <= j < final(self).spec_len() && final(self).entries_seq()[j].0@ == k2);
                final(self).lemma_entry_is_get(j);
                let j0 = old(self).spec_index_of(k2);
                old(self).lemma_entry_is_get(j0);
                if j < i {
                    assert(old(self).entries_seq()[j] == final(self).entries_seq()[j]);
                    assert(j0 == j);
                } else {
                    assert(old(self).entries_seq()[j + 1] == final(self).entries_seq()[j]);
                    assert(j0 == j + 1);
                }
            }
            assert(final(self).as_map() =~= old(self).as_map().remove(k));
        }
        e
    }

    /// Append a fresh key at the end of the storage order.
    pub fn push_entry(&mut self, key: String, v: V)
        requires
            old(self).wf(),
            !old(self).contains_key(key@),
        ensures
            final(self).wf(),
            final(self).entries_seq() == old(self).entries_seq().push((key, v)),
            final(self).keys_seq() == old(self).keys_seq().push(key@),
            final(self).contains_key(key@),
            final(self).spec_get(key@) == v,
            forall|k2: Seq<char>|
                k2 != key@ ==> #[trigger] final(self).contains_key(k2) == old(self).contains_key(
                    k2,
                ),
            forall|k2: Seq<char>|
                k2 != key@ && old(self).contains_key(k2) ==> #[trigger] final(self).spec_get(k2)
                    == old(self).spec_get(k2),
            final(self).as_map() == old(self).as_map().insert(key@, v),
    {
        let ghost k: Seq<char> = key@;
        let ghost n: int = self.entries@.len() as int;
        self.entries.push((key, v));
        proof {
            assert(final(self).keys_seq() =~= old(self).keys_seq().push(k));
            assert(final(self).entries_seq()[n].0@ == k);
            assert(final(self).wf()) by {
                assert forall|i: int, j: int|
                    0 <= i < final(self).spec_len() && 0 <= j < final(self).spec_len() && i != j
                        implies final(self).entries_seq()[i].0@ != final(self).entries_seq()[j].0@
                    by {
                    if i < n && j < n {
                        assert(old(self).entries_seq()[i].0@ != old(self).entries_seq()[j].0@);
                    } else if i == n {
                        assert(!old(self).contains_key(final(self).entries_seq()[j].0@) || true);
                        assert(old(self).entries_seq()[j].0@ == final(self).entries_seq()[j].0@);
                        assert(old(self).contains_key(old(self).entries_seq()[j].0@));
                    } else if j == n {
                        assert(old(self).entries_seq()[i].0@ == final(self).entries_seq()[i].0@);
                        assert(old(self).contains_key(old(self).entries_seq()[i].0@));
                    }
                }
            }
            final(self).lemma_entry_is_get(n);
            assert forall|k2: Seq<char>|
                k2 != k ==> #[trigger] final(self).contains_key(k2) == old(self).contains_key(k2)
                by {
                if k2 != k {
                    if old(self).contains_key(k2) {
                        let j = old(self).spec_index_of(k2);
                        old(self).lemma_entry_is_get(j);
                        assert(final(self).entries_seq()[j].0@ == k2);
                    }
                    if final(self).contains_key(k2) {
                        let j = final(self).spec_index_of(k2);
                        final(self).lemma_entry_is_get(j);
                        assert(j != n);
                        assert(old(self).entries_seq()[j].0@ == k2);
                    }
                }
            }
            assert forall|k2: Seq<char>| k2 != k && old(self).contains_key(k2) implies #[trigger]
                final(self).spec_get(k2) == old(self).spec_get(k2) by {
                let j0 = old(self).spec_index_of(k2);
                old(self).lemma_entry_is_get(j0);
                assert(final(self).entries_seq()[j0].0@ == k2);
                final(self).lemma_entry_is_get(j0);
            }
            assert(final(self).as_map() =~= old(self).as_map().insert(k, v));
        }
    }

    /// Look a key up.
    pub fn get(&self, key: &String) -> (r: Option<&V>)
        requires
            self.wf(),
        ensures
            match r {
                Some(v) => self.contains_key(key@) && *v == self.spec_get(key@),
                None => !self.contains_key(key@),
            },
    {
        match self.index_of(key) {
            Some(i) => {
                proof {
                    self.lemma_entry_is_get(i as int);
                }
                Some(self.value_at(i))
            },
            None => None,
        }
    }

    /// Store `v` under `key`, overwriting any previous value.
    pub fn set(&mut self, key: String, v: V)
        requires
            old(self).wf(),
        ensures
            final(self).wf(),
            final(self).contains_key(key@),
            final(self).spec_get(key@) == v,
            forall|k2: Seq<char>|
                k2 != key@ ==> #[trigger] final(self).contains_key(k2) == old(self).contains_key(
                    k2,
                ),
            forall|k2: Seq<char>|
                k2 != key@ && old(self).contains_key(k2) ==> #[trigger] final(self).spec_get(k2)
                    == old(self).spec_get(k2),
            final(self).as_map() == old(self).as_map().insert(key@, v),
            old(self).contains_key(key@) ==> final(self).keys_seq() == old(self).keys_seq(),
            !old(self).contains_key(key@) ==> final(self).keys_seq() == old(self).keys_seq().push(
                key@,
            ),
            !old(self).contains_key(key@) ==> final(self).entries_seq() == old(
                self,
            ).entries_seq().push((key, v)),
            old(self).contains_key(key@) ==> final(self).entries_seq() == old(
                self,
            ).entries_seq().update(
                old(self).spec_index_of(key@),
                (old(self).entries_seq()[old(self).spec_index_of(key@)].0, v),
            ),
    {
        match self.index_of(&key) {
            Some(i) => {
                proof {
                    self.lemma_entry_is_get(i as int);
                }
                self.set_at(i, v);
            },
            None => {
                self.push_entry(key, v);
            },
        }
    }

    /// Delete `key`; report whether it was present.
    pub fn remove(&mut self, key: &String) -> (was: bool)
        requires
            old(self).wf(),
        ensures
            final(self).wf(),
            was == old(self).contains_key(key@),
            !final(self).contains_key(key@),
            forall|k2: Seq<char>|
                k2 != key@ ==> #[trigger] final(self).contains_key(k2) == old(self).contains_key(
                    k2,
                ),
            forall|k2: Seq<char>|
                k2 != key@ && old(self).contains_key(k2) ==> #[trigger] final(self).spec_get(k2)
                    == old(self).spec_get(k2),
            final(self).as_map() == old(self).as_map().remove(key@),
            was ==> final(self).entries_seq() == old(self).entries_seq().remove(
                old(self).spec_index_of(key@),
            ),
            !was ==> final(self).entries_seq() == old(self).entries_seq(),
    {
        match self.index_of(key) {
            Some(i) => {
                proof {
                    self.lemma_entry_is_get(i as int);
                }
                self.remove_at(i);
                true
            },
            None => {
                proof {
                    assert(final(self).as_map() =~= old(self).as_map().remove(key@));
                }
                false
            },
        }
    }

    pub fn has(&self, key: &String) -> (r: bool)
        ensures
            r == self.contains_key(key@),
    {
        self.index_of(key).is_some()
    }
}

/// An element-wise copy of a byte vector.
pub fn clone_bytes(v: &Vec<u8>) -> (r: Vec<u8>)
    ensures
        r@ == v@,
{
    let mut r: Vec<u8> = Vec::new();
    let mut i: usize = 0;
    while i < v.len()
        invariant
            i <= v@.len(),
            r@ == v@.subrange(0, i as int),
        decreases v@.len() - i,
    {
        r.push(v[i]);
        proof {
            assert(r@ =~= v@.subrange(0, i + 1 as int));
        }
        i = i + 1;
    }
    proof {
        assert(r@ =~= v@);
    }
    r
}

/// An element-wise copy of a vector of strings.
pub fn clone_string_vec(v: &Vec<String>) -> (r: Vec<String>)
    ensures
        r@ == v@,
{
    let mut r: Vec<String> = Vec::new();
    let mut i: usize = 0;
    while i < v.len()
        invariant
            i <= v@.len(),
            r@ == v@.subrange(0, i as int),
        decreases v@.len() - i,
    {
        r.push(v[i].clone());
        proof {
            assert(r@ =~= v@.subrange(0, i + 1 as int));
        }
        i = i + 1;
    }
    proof {
        assert(r@ =~= v@);
    }
    r
}

/// Whether some element of `v` has the view of `s`.
pub open spec fn spec_vec_contains_string(v: Seq<String>, s: Seq<char>) -> bool {
    exists|i: int| 0 <= i < v.len() && v[i]@ == s
}

/// Linear search for a string among strings.
pub fn vec_contains_string(v: &Vec<String>, s: &String) -> (r: bool)
    ensures
        r == spec_vec_contains_string(v@, s@),
{
    let mut i: usize = 0;
    while i < v.len()
        invariant
            i <= v@.len(),
            forall|j: int| 0 <= j < i ==> v@[j]@ != s@,
        decreases v@.len() - i,
    {
        if v[i] == *s {
            return true;
        }
        i = i + 1;
    }
    false
}

/// The elements of `v` whose view is not that of `needle`, in order.
pub fn remove_matching(v: &Vec<String>, needle: &String) -> (r: Vec<String>)
    ensures
        r@.map(|i: int, s: String| s@) == v@.map(|i: int, s: String| s@).filter(
            |x: Seq<char>| x != needle@,
        ),
{
    let ghost all: Seq<Seq<char>> = v@.map(|i: int, s: String| s@);
    let ghost pred = |x: Seq<char>| x != needle@;
    let mut r: Vec<String> = Vec::new();
    let mut i: usize = 0;
    proof {
        reveal(Seq::filter);
        assert(all.subrange(0, 0).filter(pred) =~= Seq::<Seq<char>>::empty());
        assert(r@.map(|j: int, s: String| s@) =~= Seq::<Seq<char>>::empty());
    }
    while i < v.len()
        invariant
            i <= v@.len(),
            all == v@.map(|j: int, s: String| s@),
            pred == (|x: Seq<char>| x != needle@),
            r@.map(|j: int, s: String| s@) == all.subrange(0, i as int).filter(pred),
        decreases v@.len() - i,
    {
        let ghost prefix = all.subrange(0, i as int);
        proof {
            reveal(Seq::filter);
            assert(all.subrange(0, i + 1).drop_last() =~= prefix);
            assert(all.subrange(0, i + 1).last() == all[i as int]);
        }
        if v[i] != *needle {
            r.push(v[i].clone());
            proof {
                assert(r@.map(|j: int, s: String| s@) =~= prefix.filter(pred).push(all[i as int]));
            }
        }
        i = i + 1;
    }
    proof {
        assert(all.subrange(0, v@.len() as int) =~= all);
    }
    r
}

} // verus!

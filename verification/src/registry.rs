//! What a server keeps for each of its peers, found by a key of bytes: the
//! text of an address, or a connection identifier.

use vstd::prelude::*;

verus! {

/// Whether two slices hold the same bytes.
pub fn same_bytes(a: &[u8], b: &[u8]) -> (same: bool)
    ensures
        same == (a@ == b@),
{
    if a.len() != b.len() {
        return false;
    }
    let mut i: usize = 0;
    while i < a.len()
        invariant
            a@.len() == b@.len(),
            i <= a@.len(),
            forall|j: int| 0 <= j < i ==> a@[j] == b@[j],
        decreases a@.len() - i,
    {
        if a[i] != b[i] {
            return false;
        }
        i = i + 1;
    }
    assert(a@ =~= b@);
    true
}

/// One entry per key, in the order in which the keys came.
pub struct Registry<T> {
    entries: Vec<(Vec<u8>, T)>,
}

impl<T> Registry<T> {
    pub closed spec fn keys(self) -> Seq<Seq<u8>> {
        self.entries@.map_values(|entry: (Vec<u8>, T)| entry.0@)
    }

    pub closed spec fn values(self) -> Seq<T> {
        self.entries@.map_values(|entry: (Vec<u8>, T)| entry.1)
    }

    /// No key occurs twice, and each has a value.
    pub open spec fn wf(self) -> bool {
        &&& self.keys().no_duplicates()
        &&& self.keys().len() == self.values().len()
    }

    /// What the registry holds for each key.
    pub open spec fn map(self) -> Map<Seq<u8>, T> {
        Map::new(
            |key: Seq<u8>| self.keys().contains(key),
            |key: Seq<u8>| self.values()[self.keys().index_of(key)],
        )
    }

    pub fn new() -> (registry: Registry<T>)
        ensures
            registry.wf(),
            registry.keys().len() == 0,
            registry.map() == Map::<Seq<u8>, T>::empty(),
    {
        let registry: Registry<T> = Registry { entries: Vec::new() };
        assert(registry.map() =~= Map::<Seq<u8>, T>::empty());
        registry
    }

    pub fn len(&self) -> (len: usize)
        ensures
            len == self.keys().len(),
    {
        self.entries.len()
    }

    /// Where the entry of a key is, if there is one.
    pub fn find(&self, key: &[u8]) -> (found: Option<usize>)
        requires
            self.wf(),
        ensures
            found is Some <==> self.map().contains_key(key@),
            found matches Some(i) ==> {
                &&& i < self.keys().len()
                &&& self.keys()[i as int] == key@
                &&& self.values()[i as int] == self.map()[key@]
            },
    {
        let mut i: usize = 0;
        while i < self.entries.len()
            invariant
                self.wf(),
                i <= self.entries@.len(),
                forall|j: int| 0 <= j < i ==> self.keys()[j] != key@,
            decreases self.entries@.len() - i,
        {
            if same_bytes(self.entries[i].0.as_slice(), key) {
                assert(self.keys()[i as int] == key@);
                assert(self.keys().contains(key@));
                return Some(i);
            }
            assert(self.keys()[i as int] != key@);
            i = i + 1;
        }
        assert(!self.keys().contains(key@));
        None
    }

    /// The key of an entry.
    pub fn key(&self, i: usize) -> (key: &[u8])
        requires
            i < self.keys().len(),
        ensures
            key@ == self.keys()[i as int],
    {
        self.entries[i].0.as_slice()
    }

    /// The value of an entry.
    pub fn value(&self, i: usize) -> (value: &T)
        requires
            i < self.keys().len(),
        ensures
            *value == self.values()[i as int],
    {
        &self.entries[i].1
    }

    /// The value of an entry, to be changed.
    pub fn value_mut(&mut self, i: usize) -> (value: &mut T)
        requires
            old(self).wf(),
            i < old(self).keys().len(),
        ensures
            *value == old(self).values()[i as int],
            final(self).wf(),
            final(self).keys() == old(self).keys(),
            final(self).values() == old(self).values().update(i as int, *final(value)),
            final(self).map() == old(self).map().insert(
                old(self).keys()[i as int],
                *final(value),
            ),
    {
        proof {
            assert forall|next: Registry<T>|
                #![trigger next.wf()]
                #![trigger next.map()]
                next.entries@.len() == self.entries@.len() && next.entries@[i as int].0
                    == self.entries@[i as int].0 && (forall|j: int|
                    0 <= j < self.entries@.len() && j != i ==> next.entries@[j]
                        == self.entries@[j]) implies next.wf() && next.map() == self.map().insert(
                self.keys()[i as int],
                next.entries@[i as int].1,
            ) by {
                self.lemma_update(next, i as int);
            }
        }
        &mut self.entries[i].1
    }

    /// A registry with another value at one place holds that for its key.
    proof fn lemma_update(self, next: Registry<T>, i: int)
        requires
            self.wf(),
            0 <= i < self.keys().len(),
            next.entries@.len() == self.entries@.len(),
            next.entries@[i].0 == self.entries@[i].0,
            forall|j: int|
                0 <= j < self.entries@.len() && j != i ==> next.entries@[j] == self.entries@[j],
        ensures
            next.wf(),
            next.map() == self.map().insert(self.keys()[i], next.entries@[i].1),
    {
        let value = next.entries@[i].1;
        assert(next.keys() =~= self.keys());
        assert(next.values() =~= self.values().update(i, value));
        assert(self.keys().contains(self.keys()[i]));
        assert forall|k: Seq<u8>| self.keys().contains(k) implies next.map()[k]
            == self.map().insert(self.keys()[i], value)[k] by {
            let j = self.keys().index_of(k);
            assert(self.keys()[j] == k);
        }
        assert(next.map() =~= self.map().insert(self.keys()[i], value));
    }

    /// Adds an entry under a key that has none.
    pub fn insert(&mut self, key: Vec<u8>, value: T)
        requires
            old(self).wf(),
            !old(self).map().contains_key(key@),
        ensures
            final(self).wf(),
            final(self).keys() == old(self).keys().push(key@),
            final(self).values() == old(self).values().push(value),
            final(self).map() == old(self).map().insert(key@, value),
    {
        self.entries.push((key, value));
        assert(self.keys() =~= old(self).keys().push(key@));
        assert(self.values() =~= old(self).values().push(value));
        proof {
            let before = old(self).keys();
            assert(self.keys().no_duplicates());
            assert forall|k: Seq<u8>| self.keys().contains(k) implies self.map()[k] == old(
                self,
            ).map().insert(key@, value)[k] by {
                let i = self.keys().index_of(k);
                if k != key@ {
                    assert(i < before.len());
                    assert(before[i] == k);
                    assert(before.contains(k));
                    assert(before.index_of(k) == i);
                }
            }
            assert forall|k: Seq<u8>|
                self.keys().contains(k) <==> (before.contains(k) || k == key@) by {
                if before.contains(k) {
                    let i = before.index_of(k);
                    assert(self.keys()[i] == k);
                }
                if k == key@ {
                    assert(self.keys()[before.len() as int] == k);
                }
                if self.keys().contains(k) && k != key@ {
                    let i = self.keys().index_of(k);
                    assert(before[i] == k);
                }
            }
            assert(self.map() =~= old(self).map().insert(key@, value));
        }
    }
}

} // verus!

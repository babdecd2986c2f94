//! A map where several keys can share one value.

use vstd::prelude::*;
use std::collections::HashMap;

verus! {

broadcast use {vstd::std_specs::hash::group_hash_axioms, vstd::seq_lib::lemma_seq_contains_after_push};

/// A map from keys to values where several keys (aliases) can point to the same value. Each
/// key points to a slot; each slot holds a value. A value is dropped when the last key
/// pointing to it is removed.
#[derive(Debug)]
pub struct HashMany<V> {
    keys: HashMap<u64, usize>,
    values: HashMap<usize, V>,
    next: usize,
}

/// Whether some key points to slot `idx`.
fn slot_in_use(keys: &HashMap<u64, usize>, idx: usize) -> (r: bool)
    ensures
        r == keys@.values().contains(idx),
{
    for v in iter: keys.values()
        invariant
            forall|j: int| 0 <= j < iter.index() ==> *iter.seq()[j] != idx,
            iter.seq().unref().to_set() == keys@.values(),
    {
        if *v == idx {
            return true;
        }
    }
    false
}

impl<V> HashMany<V> {
    /// The slot each key points to.
    pub closed spec fn index(&self) -> Map<u64, usize> {
        self.keys@
    }

    /// The value in each slot.
    pub closed spec fn store(&self) -> Map<usize, V> {
        self.values@
    }

    /// The next slot a new value goes to.
    pub closed spec fn next_slot(&self) -> nat {
        self.next as nat
    }

    /// Every key points to a slot holding a value; new slots are above all used ones.
    pub open spec fn wf(&self) -> bool {
        &&& forall|k: u64| #[trigger]
            self.index().contains_key(k) ==> self.store().contains_key(self.index()[k])
        &&& forall|k: u64| #[trigger] self.index().contains_key(k) ==> self.index()[k] < self.next_slot()
        &&& forall|i: usize| #[trigger] self.store().contains_key(i) ==> i < self.next_slot()
    }

    /// The value for each key.
    pub open spec fn map(&self) -> Map<u64, V> {
        Map::new(|k: u64| self.index().contains_key(k), |k: u64| self.store()[self.index()[k]])
    }

    /// Whether another key than `k` points to slot `i`.
    pub open spec fn shared(&self, k: u64, i: usize) -> bool {
        exists|j: u64| j != k && #[trigger] self.index().contains_key(j) && self.index()[j] == i
    }

    /// Whether slot `i` loses its last key when the keys in `ks` are removed: some key of `ks`
    /// points to it and no key outside `ks` does.
    pub open spec fn orphaned_by(&self, ks: Seq<u64>, i: usize) -> bool {
        &&& exists|j: u64| ks.contains(j) && #[trigger] self.index().contains_key(j) && self.index()[j] == i
        &&& !exists|j: u64| !ks.contains(j) && #[trigger] self.index().contains_key(j) && self.index()[j] == i
    }

    /// How `orphaned_by` changes when one more key `k` joins the removed keys `ks`.
    proof fn lemma_orphaned_step(&self, ks: Seq<u64>, k: u64, i: usize)
        ensures
            !(self.index().contains_key(k) && !ks.contains(k)) || self.index()[k] != i
                ==> self.orphaned_by(ks.push(k), i) == self.orphaned_by(ks, i),
            self.index().contains_key(k) && !ks.contains(k) && self.index()[k] == i ==> {
                &&& !self.orphaned_by(ks, i)
                &&& self.orphaned_by(ks.push(k), i) == !exists|j: u64|
                    !ks.push(k).contains(j) && #[trigger] self.index().contains_key(j) && self.index()[j] == i
            },
    {
        let ks2 = ks.push(k);
        if self.index().contains_key(k) && !ks.contains(k) && self.index()[k] == i {
            assert(!ks.contains(k) && self.index().contains_key(k) && self.index()[k] == i);
            assert(ks2.contains(k));
        } else {
            if exists|j: u64| ks2.contains(j) && #[trigger] self.index().contains_key(j) && self.index()[j] == i {
                let j = choose|j: u64| ks2.contains(j) && #[trigger] self.index().contains_key(j) && self.index()[j] == i;
                if j == k && !ks.contains(k) {
                    assert(false);
                }
                assert(ks.contains(j));
            }
            if exists|j: u64| !ks.contains(j) && #[trigger] self.index().contains_key(j) && self.index()[j] == i {
                let j = choose|j: u64| !ks.contains(j) && #[trigger] self.index().contains_key(j) && self.index()[j] == i;
                assert(j != k);
                assert(!ks2.contains(j));
            }
            if exists|j: u64| ks.contains(j) && #[trigger] self.index().contains_key(j) && self.index()[j] == i {
                let j = choose|j: u64| ks.contains(j) && #[trigger] self.index().contains_key(j) && self.index()[j] == i;
                assert(ks2.contains(j));
            }
            if exists|j: u64| !ks2.contains(j) && #[trigger] self.index().contains_key(j) && self.index()[j] == i {
                let j = choose|j: u64| !ks2.contains(j) && #[trigger] self.index().contains_key(j) && self.index()[j] == i;
                assert(!ks.contains(j));
            }
        }
    }

    proof fn lemma_wf_intro(&self, before: &Self)
        requires
            before.wf(),
            self.next_slot() >= before.next_slot(),
            forall|k: u64| #[trigger]
                self.index().contains_key(k) ==> (before.index().contains_key(k) && self.index()[k]
                    == before.index()[k]) || self.index()[k] < self.next_slot(),
            forall|k: u64| #[trigger]
                self.index().contains_key(k) ==> self.store().contains_key(self.index()[k]),
            forall|i: usize| #[trigger]
                self.store().contains_key(i) ==> before.store().contains_key(i) || i < self.next_slot(),
        ensures
            self.wf(),
    {
    }

    /// An empty map.
    pub fn new() -> (r: Self)
        ensures
            r.wf(),
            r.index() == Map::<u64, usize>::empty(),
            r.store() == Map::<usize, V>::empty(),
            r.next_slot() == 0,
    {
        Self { keys: HashMap::new(), values: HashMap::new(), next: 0 }
    }

    /// Whether a key is present.
    pub fn contains_key(&self, k: &u64) -> (r: bool)
        ensures
            r == self.index().contains_key(*k),
    {
        self.keys.contains_key(k)
    }

    /// Removes all keys and values.
    pub fn clear(&mut self)
        ensures
            final(self).wf(),
            final(self).index() == Map::<u64, usize>::empty(),
            final(self).store() == Map::<usize, V>::empty(),
            final(self).next_slot() == 0,
    {
        self.keys.clear();
        self.values.clear();
        self.next = 0;
    }

    /// The value for a key.
    pub fn get(&self, k: &u64) -> (r: Option<&V>)
        requires
            self.wf(),
        ensures
            match r {
                Some(v) => self.map().contains_key(*k) && *v == self.map()[*k],
                None => !self.map().contains_key(*k),
            },
    {
        match self.keys.get(k) {
            Some(idx) => self.values.get(idx),
            None => None,
        }
    }

    /// Sets the value for a key. A key already present keeps its slot, so the new value is
    /// seen through all its aliases; the old value is returned. A new key gets a new slot.
    pub fn insert(&mut self, k: u64, v: V) -> (r: Option<V>)
        requires
            old(self).wf(),
            old(self).next_slot() < usize::MAX,
        ensures
            final(self).wf(),
            old(self).index().contains_key(k) ==> {
                &&& r == Some(old(self).store()[old(self).index()[k]])
                &&& final(self).index() == old(self).index()
                &&& final(self).store() == old(self).store().insert(old(self).index()[k], v)
                &&& final(self).next_slot() == old(self).next_slot()
            },
            !old(self).index().contains_key(k) ==> {
                &&& r is None
                &&& final(self).index() == old(self).index().insert(k, old(self).next_slot() as usize)
                &&& final(self).store() == old(self).store().insert(old(self).next_slot() as usize, v)
                &&& final(self).next_slot() == old(self).next_slot() + 1
            },
            final(self).map().contains_key(k),
            final(self).map()[k] == v,
            forall|j: u64| #[trigger] final(self).map().contains_key(j) <==> old(self).map().contains_key(j) || j == k,
            forall|j: u64| j != k && #[trigger] old(self).map().contains_key(j) ==> final(self).map()[j] == if old(
                self,
            ).index().contains_key(k) && old(self).index()[j] == old(self).index()[k] {
                v
            } else {
                old(self).map()[j]
            },
    {
        match self.keys.get(&k) {
            Some(idx) => {
                let i = *idx;
                let r = self.values.insert(i, v);
                proof {
                    assert(old(self).index().contains_key(k));
                    assert(old(self).store().contains_key(i));
                    assert forall|i2: usize| #[trigger] self.store().contains_key(i2) implies old(
                        self,
                    ).store().contains_key(i2) || i2 < self.next_slot() by {}
                    assert forall|j: u64| #[trigger] self.index().contains_key(j) implies self.store().contains_key(
                        self.index()[j],
                    ) by {
                        if old(self).index().contains_key(j) {
                            assert(old(self).store().contains_key(old(self).index()[j]));
                        }
                    }
                    self.lemma_wf_intro(old(self));
                }
                r
            },
            None => {
                self.values.insert(self.next, v);
                self.keys.insert(k, self.next);
                self.next = self.next + 1;
                proof {
                    assert forall|i: usize| #[trigger] self.store().contains_key(i) implies old(
                        self,
                    ).store().contains_key(i) || i < self.next_slot() by {}
                    assert forall|j: u64| #[trigger] self.index().contains_key(j) implies self.store().contains_key(
                        self.index()[j],
                    ) by {
                        if old(self).index().contains_key(j) {
                            assert(old(self).store().contains_key(old(self).index()[j]));
                        }
                    }
                    self.lemma_wf_intro(old(self));
                }
                None
            },
        }
    }

    /// Makes `new` an alias of `k`: it points to the slot of `k` (whatever it pointed to
    /// before). Returns the value of `k`, or `None` (and changes nothing) when `k` is absent.
    pub fn alias(&mut self, k: &u64, new: u64) -> (r: Option<&V>)
        requires
            old(self).wf(),
        ensures
            final(self).wf(),
            final(self).store() == old(self).store(),
            final(self).next_slot() == old(self).next_slot(),
            old(self).index().contains_key(*k) ==> {
                &&& final(self).index() == old(self).index().insert(new, old(self).index()[*k])
                &&& r == Some(&old(self).store()[old(self).index()[*k]])
            },
            !old(self).index().contains_key(*k) ==> r is None && final(self).index() == old(self).index(),
            old(self).map().contains_key(*k) ==> final(self).map() == old(self).map().insert(new, old(self).map()[*k]),
            !old(self).map().contains_key(*k) ==> final(self).map() == old(self).map(),
    {
        let idx = match self.keys.get(k) {
            Some(i) => *i,
            None => return None,
        };
        self.keys.insert(new, idx);
        proof {
            assert forall|j: u64| #[trigger] self.index().contains_key(j) implies self.store().contains_key(
                self.index()[j],
            ) by {
                if old(self).index().contains_key(j) {
                    assert(old(self).store().contains_key(old(self).index()[j]));
                }
            }
            self.lemma_wf_intro(old(self));
        }
        self.values.get(&idx)
    }

    /// Removes a key. When no other key points to its slot, the value is removed and
    /// returned; `None` when the key was absent or the value is still shared.
    pub fn remove(&mut self, k: &u64) -> (r: Option<V>)
        requires
            old(self).wf(),
        ensures
            final(self).wf(),
            final(self).index() == old(self).index().remove(*k),
            final(self).next_slot() == old(self).next_slot(),
            !old(self).index().contains_key(*k) ==> r is None && final(self).store() == old(self).store(),
            old(self).index().contains_key(*k) && old(self).shared(*k, old(self).index()[*k]) ==> r is None
                && final(self).store() == old(self).store(),
            old(self).index().contains_key(*k) && !old(self).shared(*k, old(self).index()[*k]) ==> r
                == Some(old(self).store()[old(self).index()[*k]]) && final(self).store() == old(
                self,
            ).store().remove(old(self).index()[*k]),
            final(self).map() == old(self).map().remove(*k),
    {
        let idx = match self.keys.remove(k) {
            Some(i) => i,
            None => {
                proof {
                    assert forall|j: u64| #[trigger] self.index().contains_key(j) implies self.store().contains_key(
                        self.index()[j],
                    ) by {
                        if old(self).index().contains_key(j) {
                            assert(old(self).store().contains_key(old(self).index()[j]));
                        }
                    }
                    self.lemma_wf_intro(old(self));
                }
                return None;
            },
        };
        let found = slot_in_use(&self.keys, idx);
        proof {
            assert(found <==> old(self).shared(*k, idx)) by {
                if found {
                    let j = choose|j: u64| self.keys@.contains_key(j) && self.keys@[j] == idx;
                    assert(old(self).index().contains_key(j) && j != *k);
                }
                if old(self).shared(*k, idx) {
                    let j = choose|j: u64| j != *k && #[trigger] old(self).index().contains_key(j) && old(self).index()[j] == idx;
                    assert(self.keys@.contains_key(j));
                    assert(self.keys@.values().contains(idx));
                }
            }
        }
        if found {
            proof {
            assert forall|j: u64| #[trigger] self.index().contains_key(j) implies self.store().contains_key(
                self.index()[j],
            ) by {
                if old(self).index().contains_key(j) {
                    assert(old(self).store().contains_key(old(self).index()[j]));
                }
            }
                    self.lemma_wf_intro(old(self));
            }
            None
        } else {
            let r = self.values.remove(&idx);
            proof {
                assert forall|j: u64| #[trigger] self.index().contains_key(j) implies self.store().contains_key(
                    self.index()[j],
                ) by {
                    assert(old(self).store().contains_key(old(self).index()[j]));
                    if self.index()[j] == idx {
                        assert(self.keys@.values().contains(idx));
                    }
                }
                self.lemma_wf_intro(old(self));
            }
            r
        }
    }

    /// Gives all `keys` one new value. Each key first loses its old value (a value is dropped
    /// when its last key goes); then all keys point to one new slot holding `v`. With no keys
    /// nothing changes.
    pub fn insert_many(&mut self, keys: Vec<u64>, v: V)
        requires
            old(self).wf(),
            old(self).next_slot() < usize::MAX,
        ensures
            final(self).wf(),
            keys.len() == 0 ==> *final(self) == *old(self),
            keys.len() > 0 ==> {
                &&& final(self).next_slot() == old(self).next_slot() + 1
                &&& forall|j: u64| #[trigger]
                    final(self).index().contains_key(j) <==> old(self).index().contains_key(j)
                        || keys@.contains(j)
                &&& forall|j: u64| #[trigger] keys@.contains(j) ==> final(self).index()[j]
                    == old(self).next_slot()
                &&& forall|j: u64| !keys@.contains(j) && #[trigger] old(self).index().contains_key(j)
                    ==> final(self).index()[j] == old(self).index()[j]
                &&& final(self).store().contains_key(old(self).next_slot() as usize)
                &&& final(self).store()[old(self).next_slot() as usize] == v
                &&& forall|i: usize| i != old(self).next_slot() ==> (#[trigger] final(self).store().contains_key(i)
                    <==> old(self).store().contains_key(i) && !old(self).orphaned_by(keys@, i))
                &&& forall|i: usize| i != old(self).next_slot() && #[trigger] final(self).store().contains_key(i)
                    ==> final(self).store()[i] == old(self).store()[i]
                &&& forall|j: u64| #[trigger] keys@.contains(j) ==> final(self).map().contains_key(j)
                    && final(self).map()[j] == v
                &&& forall|j: u64| !keys@.contains(j) ==> (#[trigger] final(self).map().contains_key(j)
                    <==> old(self).map().contains_key(j))
                &&& forall|j: u64| !keys@.contains(j) && #[trigger] old(self).map().contains_key(j)
                    ==> final(self).map()[j] == old(self).map()[j]
            },
    {
        if keys.len() == 0 {
            return;
        }
        let ghost start = *self;
        let mut n: usize = 0;
        while n < keys.len()
            invariant
                start == *old(self),
                start.wf(),
                start.next_slot() < usize::MAX,
                n <= keys.len(),
                self.wf(),
                self.next_slot() == start.next_slot(),
                forall|j: u64| #[trigger] self.index().contains_key(j) <==> start.index().contains_key(j)
                    && !keys@.take(n as int).contains(j),
                forall|j: u64| #[trigger] self.index().contains_key(j) ==> self.index()[j] == start.index()[j],
                forall|i: usize| #[trigger] self.store().contains_key(i) <==> start.store().contains_key(i)
                    && !start.orphaned_by(keys@.take(n as int), i),
                forall|i: usize| #[trigger] self.store().contains_key(i) ==> self.store()[i] == start.store()[i],
            decreases keys.len() - n,
        {
            let k = keys[n];
            let ghost before = *self;
            let ghost ks = keys@.take(n as int);
            assert(keys@.take(n + 1) == ks.push(k));
            self.remove(&k);
            proof {
                assert forall|i: usize| #[trigger] self.store().contains_key(i) <==> start.store().contains_key(i)
                    && !start.orphaned_by(ks.push(k), i) by {
                    start.lemma_orphaned_step(ks, k, i);
                    if start.index().contains_key(k) && !ks.contains(k) && start.index()[k] == i {
                        assert(before.index().contains_key(k));
                        if before.shared(k, i) {
                            let j = choose|j: u64| j != k && #[trigger] before.index().contains_key(j) && before.index()[j] == i;
                            assert(!ks.push(k).contains(j) && start.index().contains_key(j));
                        }
                        if exists|j: u64| !ks.push(k).contains(j) && #[trigger] start.index().contains_key(j) && start.index()[j] == i {
                            let j = choose|j: u64| !ks.push(k).contains(j) && #[trigger] start.index().contains_key(j) && start.index()[j] == i;
                            assert(ks.push(k).contains(k));
                            assert(!ks.contains(j));
                            assert(before.index().contains_key(j));
                        }
                    }
                }
            }
            n = n + 1;
        }
        assert(keys@.take(keys.len() as int) == keys@);
        let k1 = keys[0];
        let ghost mid = *self;
        self.insert(k1, v);
        let mut m: usize = 1;
        while m < keys.len()
            invariant
                start == *old(self),
                1 <= m <= keys.len(),
                k1 == keys@[0],
                self.wf(),
                self.next_slot() == start.next_slot() + 1,
                self.index().contains_key(k1),
                self.index()[k1] == start.next_slot(),
                self.store() == mid.store().insert(start.next_slot() as usize, v),
                forall|j: u64| #[trigger] self.index().contains_key(j) <==> mid.index().contains_key(j)
                    || keys@.take(m as int).contains(j),
                forall|j: u64| #[trigger] keys@.take(m as int).contains(j) ==> self.index()[j] == start.next_slot(),
                forall|j: u64| !keys@.take(m as int).contains(j) && #[trigger] mid.index().contains_key(j)
                    ==> self.index()[j] == mid.index()[j],
            decreases keys.len() - m,
        {
            let k = keys[m];
            assert(keys@.take(m + 1) == keys@.take(m as int).push(k));
            self.alias(&k1, k);
            m = m + 1;
        }
        assert(keys@.take(keys.len() as int) == keys@);
        assert forall|j: u64| !keys@.contains(j) && #[trigger] start.index().contains_key(j) implies self.index()[j]
            == start.index()[j] by {
            assert(mid.index().contains_key(j));
        }
        assert forall|j: u64| !keys@.contains(j) && #[trigger] start.map().contains_key(j) implies self.map()[j]
            == start.map()[j] by {
            let i = start.index()[j];
            assert(start.index().contains_key(j));
            assert(i < start.next_slot());
            assert(!start.orphaned_by(keys@, i));
            assert(self.store().contains_key(i));
        }
    }
}

impl<V> Default for HashMany<V> {
    fn default() -> (r: Self)
        ensures
            r.wf(),
            r.index() == Map::<u64, usize>::empty(),
            r.store() == Map::<usize, V>::empty(),
            r.next_slot() == 0,
    {
        Self::new()
    }
}

} // verus!

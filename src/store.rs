//! A map from text keys to values, each stamped with the time at which it
//! was stored. Readers decide for themselves whether an entry is fresh.

use vstd::prelude::*;

verus! {

/// One stored value together with its key and the time it was put.
struct StoreEntry<V> {
    key: String,
    value: V,
    stamp: i64,
}

/// Keys are unique; the ghost map `model` is what the store holds.
pub struct EphemeralStore<V> {
    entries: Vec<StoreEntry<V>>,
    model: Ghost<Map<Seq<char>, (V, i64)>>,
}

impl<V> View for EphemeralStore<V> {
    type V = Map<Seq<char>, (V, i64)>;

    closed spec fn view(&self) -> Map<Seq<char>, (V, i64)> {
        self.model@
    }
}

impl<V> EphemeralStore<V> {
    /// The entries agree with the model, and no key occurs twice.
    pub closed spec fn wf(&self) -> bool {
        &&& forall|i: int, j: int|
            0 <= i < self.entries@.len() && 0 <= j < self.entries@.len() && i != j
                ==> #[trigger] self.entries@[i].key@ != #[trigger] self.entries@[j].key@
        &&& forall|i: int|
            0 <= i < self.entries@.len() ==> {
                &&& self.model@.contains_key(#[trigger] self.entries@[i].key@)
                &&& self.model@[self.entries@[i].key@] == (
                    self.entries@[i].value,
                    self.entries@[i].stamp,
                )
            }
        &&& forall|k: Seq<char>|
            #[trigger] self.model@.contains_key(k) ==> exists|i: int|
                0 <= i < self.entries@.len() && #[trigger] self.entries@[i].key@ == k
    }

    /// An empty store.
    pub fn new() -> (r: Self)
        ensures
            r.wf(),
            r@ == Map::<Seq<char>, (V, i64)>::empty(),
    {
        EphemeralStore { entries: Vec::new(), model: Ghost(Map::empty()) }
    }

    /// The position of `key`, if it is stored.
    fn find(&self, key: &String) -> (r: Option<usize>)
        requires
            self.wf(),
        ensures
            match r {
                Some(i) => i < self.entries@.len() && self.entries@[i as int].key@ == key@,
                None => !self@.contains_key(key@),
            },
    {
        let mut i: usize = 0;
        while i < self.entries.len()
            invariant
                self.wf(),
                i <= self.entries@.len(),
                forall|j: int| 0 <= j < i ==> #[trigger] self.entries@[j].key@ != key@,
            decreases self.entries@.len() - i,
        {
            if self.entries[i].key == *key {
                return Some(i);
            }
            i = i + 1;
        }
        proof {
            if self@.contains_key(key@) {
                let j = choose|j: int|
                    0 <= j < self.entries@.len() && #[trigger] self.entries@[j].key@ == key@;
                assert(self.entries@[j].key@ != key@);
            }
        }
        None
    }

    /// Whether `key` is stored.
    pub fn contains(&self, key: &String) -> (r: bool)
        requires
            self.wf(),
        ensures
            r == self@.contains_key(key@),
    {
        self.find(key).is_some()
    }

    /// The value stored under `key` and the time it was put.
    pub fn get(&self, key: &String) -> (r: Option<(&V, i64)>)
        requires
            self.wf(),
        ensures
            match r {
                Some((v, t)) => self@.contains_key(key@) && self@[key@] == (*v, t),
                None => !self@.contains_key(key@),
            },
    {
        match self.find(key) {
            Some(i) => Some((&self.entries[i].value, self.entries[i].stamp)),
            None => None,
        }
    }

    /// Stores `value` under `key` at time `now`, replacing what was there.
    pub fn put(&mut self, key: String, value: V, now: i64) -> (r: i64)
        requires
            old(self).wf(),
        ensures
            final(self).wf(),
            final(self)@ == old(self)@.insert(key@, (value, now)),
            r == now,
    {
        match self.find(&key) {
            Some(i) => {
                let ghost k = key@;
                let ghost m = self.model@.insert(k, (value, now));
                self.entries[i] = StoreEntry { key, value, stamp: now };
                self.model = Ghost(m);
                assert forall|k2: Seq<char>| #[trigger] m.contains_key(k2) implies exists|j: int|
                    0 <= j < self.entries@.len() && #[trigger] self.entries@[j].key@ == k2 by {
                    if k2 != k {
                        let j = choose|j: int|
                            0 <= j < old(self).entries@.len()
                                && #[trigger] old(self).entries@[j].key@ == k2;
                        assert(self.entries@[j].key@ == k2);
                    } else {
                        assert(self.entries@[i as int].key@ == k2);
                    }
                }
            },
            None => {
                let ghost k = key@;
                let ghost m = self.model@.insert(k, (value, now));
                self.entries.push(StoreEntry { key, value, stamp: now });
                self.model = Ghost(m);
                assert forall|k2: Seq<char>| #[trigger] m.contains_key(k2) implies exists|j: int|
                    0 <= j < self.entries@.len() && #[trigger] self.entries@[j].key@ == k2 by {
                    if k2 != k {
                        let j = choose|j: int|
                            0 <= j < old(self).entries@.len()
                                && #[trigger] old(self).entries@[j].key@ == k2;
                        assert(self.entries@[j].key@ == k2);
                    } else {
                        assert(self.entries@[old(self).entries@.len() as int].key@ == k2);
                    }
                }
            },
        }
        now
    }

    /// Replaces the value under `key`, keeping the time it was first put.
    /// Returns whether `key` was stored; if not, nothing changes.
    pub fn set_value(&mut self, key: &String, value: V) -> (r: bool)
        requires
            old(self).wf(),
        ensures
            final(self).wf(),
            r == old(self)@.contains_key(key@),
            r ==> final(self)@ == old(self)@.insert(key@, (value, old(self)@[key@].1)),
            !r ==> final(self)@ == old(self)@,
    {
        match self.find(key) {
            Some(i) => {
                let ghost k = key@;
                let stamp = self.entries[i].stamp;
                let ghost m = self.model@.insert(k, (value, stamp));
                self.entries[i].value = value;
                self.model = Ghost(m);
                assert forall|k2: Seq<char>| #[trigger] m.contains_key(k2) implies exists|j: int|
                    0 <= j < self.entries@.len() && #[trigger] self.entries@[j].key@ == k2 by {
                    if k2 != k {
                        let j = choose|j: int|
                            0 <= j < old(self).entries@.len()
                                && #[trigger] old(self).entries@[j].key@ == k2;
                        assert(self.entries@[j].key@ == k2);
                    } else {
                        assert(self.entries@[i as int].key@ == k2);
                    }
                }
                true
            },
            None => false,
        }
    }

    /// Takes the entry under `key` out of the store and returns its value.
    pub fn remove(&mut self, key: &String) -> (r: Option<V>)
        requires
            old(self).wf(),
        ensures
            final(self).wf(),
            final(self)@ == old(self)@.remove(key@),
            match r {
                Some(v) => old(self)@.contains_key(key@) && old(self)@[key@].0 == v,
                None => !old(self)@.contains_key(key@),
            },
    {
        match self.find(key) {
            Some(i) => {
                let ghost k = key@;
                let ghost m = self.model@.remove(k);
                let entry = self.entries.remove(i);
                self.model = Ghost(m);
                assert forall|j: int| 0 <= j < self.entries@.len() implies {
                    &&& m.contains_key(#[trigger] self.entries@[j].key@)
                    &&& m[self.entries@[j].key@] == (
                        self.entries@[j].value,
                        self.entries@[j].stamp,
                    )
                } by {
                    if j < i {
                        assert(self.entries@[j] == old(self).entries@[j]);
                    } else {
                        assert(self.entries@[j] == old(self).entries@[j + 1]);
                    }
                }
                assert forall|a: int, b: int|
                    0 <= a < self.entries@.len() && 0 <= b < self.entries@.len() && a != b
                        implies #[trigger] self.entries@[a].key@ != #[trigger] self.entries@[b].key@ by {
                    let oa = if a < i { a } else { a + 1 };
                    let ob = if b < i { b } else { b + 1 };
                    assert(self.entries@[a] == old(self).entries@[oa]);
                    assert(self.entries@[b] == old(self).entries@[ob]);
                }
                assert forall|k2: Seq<char>| #[trigger] m.contains_key(k2) implies exists|j: int|
                    0 <= j < self.entries@.len() && #[trigger] self.entries@[j].key@ == k2 by {
                    let j = choose|j: int|
                        0 <= j < old(self).entries@.len()
                            && #[trigger] old(self).entries@[j].key@ == k2;
                    assert(j != i);
                    if j < i {
                        assert(self.entries@[j] == old(self).entries@[j]);
                    } else {
                        assert(self.entries@[j - 1] == old(self).entries@[j]);
                    }
                }
                Some(entry.value)
            },
            None => {
                assert(self@ =~= old(self)@.remove(key@));
                None
            },
        }
    }

    /// Sets every stored value to `value`, keeping keys and times.
    pub fn set_all(&mut self, value: V) where V: Copy
        requires
            old(self).wf(),
        ensures
            final(self).wf(),
            final(self)@.dom() == old(self)@.dom(),
            forall|k: Seq<char>| #[trigger] final(self)@.contains_key(k)
                ==> final(self)@[k] == (value, old(self)@[k].1),
    {
        let ghost m = Map::new(
            |k: Seq<char>| old(self)@.contains_key(k),
            |k: Seq<char>| (value, old(self)@[k].1),
        );
        let mut i: usize = 0;
        while i < self.entries.len()
            invariant
                old(self).wf(),
                self.entries@.len() == old(self).entries@.len(),
                self.model@ == old(self).model@,
                i <= self.entries@.len(),
                forall|j: int| 0 <= j < self.entries@.len() ==> {
                    &&& (#[trigger] self.entries@[j]).key == old(self).entries@[j].key
                    &&& self.entries@[j].stamp == old(self).entries@[j].stamp
                    &&& j >= i ==> self.entries@[j].value == old(self).entries@[j].value
                    &&& j < i ==> self.entries@[j].value == value
                },
            decreases self.entries@.len() - i,
        {
            let ghost before = self.entries@;
            self.entries[i].value = value;
            assert(self.entries@ == before.update(i as int, StoreEntry { value, ..before[i as int] }));
            i = i + 1;
        }
        self.model = Ghost(m);
        assert forall|k2: Seq<char>| #[trigger] m.contains_key(k2) implies exists|j: int|
            0 <= j < self.entries@.len() && #[trigger] self.entries@[j].key@ == k2 by {
            let j = choose|j: int|
                0 <= j < old(self).entries@.len() && #[trigger] old(self).entries@[j].key@ == k2;
            assert(self.entries@[j].key == old(self).entries@[j].key);
        }
        assert forall|a: int, b: int|
            0 <= a < self.entries@.len() && 0 <= b < self.entries@.len() && a != b
                implies #[trigger] self.entries@[a].key@ != #[trigger] self.entries@[b].key@ by {
            assert(self.entries@[a].key == old(self).entries@[a].key);
            assert(self.entries@[b].key == old(self).entries@[b].key);
        }
        assert(m.dom() =~= old(self)@.dom());
    }
}

} // verus!

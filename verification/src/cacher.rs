//! The cache store: distinct keys, each with the one value built for it.
use vstd::prelude::*;
use crate::bitwise::InternKey;

verus! {

/// What a store holds, as mathematics: the keys in the order in which they
/// were first seen, and at the same position the value built for each.
pub struct CacheModel<K, V> {
    pub keys: Seq<K>,
    pub values: Seq<V>,
}

impl<K, V> CacheModel<K, V> {
    /// Every key has its value and no key stands twice.
    pub open spec fn wf(self) -> bool {
        &&& self.keys.len() == self.values.len()
        &&& self.keys.no_duplicates()
    }

    /// The store without entries.
    pub open spec fn empty() -> Self {
        CacheModel { keys: Seq::empty(), values: Seq::empty() }
    }

    pub open spec fn contains(self, key: K) -> bool {
        self.keys.contains(key)
    }

    /// The slot of `key`, where it has one.
    pub open spec fn slot_of(self, key: K) -> Option<int> {
        if self.keys.contains(key) {
            Some(self.keys.index_of(key))
        } else {
            None
        }
    }

    /// The store with one more entry at its end.
    pub open spec fn with_entry(self, key: K, value: V) -> Self {
        CacheModel { keys: self.keys.push(key), values: self.values.push(value) }
    }

    /// The store after `key` was asked for, where `built` is what building
    /// its value gives. A key that is present keeps its entry and `built`
    /// is not looked at; a new key gets the built value, or none if building
    /// failed.
    pub open spec fn after_intern<E>(self, key: K, built: Result<V, E>) -> Self {
        match (self.slot_of(key), built) {
            (None, Ok(value)) => self.with_entry(key, value),
            _ => self,
        }
    }

    /// What asking for `key` answers: the slot of its entry, or the error
    /// with which building failed.
    pub open spec fn intern_result<E>(self, key: K, built: Result<V, E>) -> Result<int, E> {
        match (self.slot_of(key), built) {
            (Some(slot), _) => Ok(slot),
            (None, Ok(_)) => Ok(self.keys.len() as int),
            (None, Err(e)) => Err(e),
        }
    }
}

/// A store of boxed values by key. Entries are added and never changed or
/// removed; a slot, once handed out, names the same value for good.
pub struct Cacher<K: InternKey, V> {
    keys: Vec<K>,
    values: Vec<V>,
}

impl<K: InternKey, V> View for Cacher<K, V> {
    type V = CacheModel<K::V, V>;

    closed spec fn view(&self) -> CacheModel<K::V, V> {
        CacheModel {
            keys: Seq::new(self.keys@.len(), |i: int| self.keys@[i]@),
            values: self.values@,
        }
    }
}

impl<K: InternKey, V> Cacher<K, V> {
    /// The invariant of a store.
    pub open spec fn wf(&self) -> bool {
        self@.wf()
    }

    pub fn new() -> (store: Self)
        ensures
            store.wf(),
            store@ == CacheModel::<K::V, V>::empty(),
    {
        let store = Cacher { keys: Vec::new(), values: Vec::new() };
        assert(store@.keys =~= Seq::empty());
        store
    }

    /// The number of entries.
    pub fn len(&self) -> (n: usize)
        requires
            self.wf(),
        ensures
            n == self@.keys.len(),
    {
        self.keys.len()
    }

    /// The slot of `key`, if the store has an entry for it.
    pub fn find(&self, key: &K) -> (found: Option<usize>)
        requires
            self.wf(),
        ensures
            match found {
                Some(slot) => {
                    &&& slot < self@.keys.len()
                    &&& self@.keys[slot as int] == key@
                    &&& self@.slot_of(key@) == Some(slot as int)
                },
                None => !self@.contains(key@),
            },
    {
        let mut i: usize = 0;
        while i < self.keys.len()
            invariant
                self.wf(),
                i <= self.keys.len(),
                forall|j: int| 0 <= j < i ==> self@.keys[j] != key@,
            decreases self.keys.len() - i,
        {
            if self.keys[i].same_key(key) {
                proof {
                    assert(self@.keys[i as int] == key@);
                    assert(self@.keys.contains(key@));
                    self@.keys.index_of_first_ensures(key@);
                }
                return Some(i);
            }
            i += 1;
        }
        proof {
            assert(!self@.keys.contains(key@));
        }
        None
    }

    /// Asks for `key` when the value for it has already been built, or has
    /// failed to build, elsewhere. Where the key is present `built` is
    /// discarded and the entry stays as it was.
    pub fn insert_built<E>(&mut self, key: K, built: Result<V, E>) -> (outcome: Result<usize, E>)
        requires
            old(self).wf(),
        ensures
            final(self).wf(),
            final(self)@ == old(self)@.after_intern(key@, built),
            match outcome {
                Ok(slot) => {
                    &&& old(self)@.intern_result(key@, built) == Ok::<int, E>(slot as int)
                    &&& slot < final(self)@.keys.len()
                    &&& final(self)@.keys[slot as int] == key@
                    &&& final(self)@.slot_of(key@) == Some(slot as int)
                },
                Err(e) => old(self)@.intern_result(key@, built) == Err::<int, E>(e),
            },
    {
        match self.find(&key) {
            Some(slot) => Ok(slot),
            None => match built {
                Ok(value) => {
                    let slot = self.keys.len();
                    self.keys.push(key);
                    self.values.push(value);
                    proof {
                        assert(final(self)@.keys =~= old(self)@.keys.push(key@));
                        lemma_push_fresh_keeps_distinct(old(self)@.keys, key@);
                        assert(final(self)@.keys[slot as int] == key@);
                        assert(final(self)@.keys.contains(key@));
                        final(self)@.keys.index_of_first_ensures(key@);
                    }
                    Ok(slot)
                },
                Err(e) => Err(e),
            },
        }
    }

    /// Looks `key` up. On a hit the existing slot is returned and `builder`
    /// is not called. On a miss `builder` is called once: its value is kept
    /// under `key` in a new slot at the end, or, if it fails, its error is
    /// returned and nothing is kept. The store is borrowed for the whole
    /// call, so `builder` cannot ask the same store for anything.
    pub fn get_or_create<E, F: FnOnce() -> Result<V, E>>(&mut self, key: K, builder: F) -> (outcome:
        Result<usize, E>)
        requires
            old(self).wf(),
            !old(self)@.contains(key@) ==> builder.requires(()),
        ensures
            final(self).wf(),
            old(self)@.contains(key@) ==> {
                &&& final(self)@ == old(self)@
                &&& outcome matches Ok(slot)
                &&& slot < old(self)@.keys.len()
                &&& old(self)@.keys[slot as int] == key@
                &&& old(self)@.slot_of(key@) == Some(slot as int)
            },
            !old(self)@.contains(key@) ==> match outcome {
                Ok(slot) => {
                    &&& slot == old(self)@.keys.len()
                    &&& slot < final(self)@.values.len()
                    &&& final(self)@.slot_of(key@) == Some(slot as int)
                    &&& builder.ensures((), Ok(final(self)@.values[slot as int]))
                    &&& final(self)@ == old(self)@.with_entry(
                        key@,
                        final(self)@.values[slot as int],
                    )
                },
                Err(e) => builder.ensures((), Err(e)) && final(self)@ == old(self)@,
            },
    {
        match self.find(&key) {
            Some(slot) => Ok(slot),
            None => {
                let built = builder();
                self.insert_built(key, built)
            },
        }
    }

    /// The value in `slot`, for every slot that the store has handed out.
    pub fn get(&self, slot: usize) -> (value: Option<&V>)
        requires
            self.wf(),
        ensures
            slot < self@.values.len() ==> value == Some(&self@.values[slot as int]),
            slot >= self@.values.len() ==> value.is_none(),
    {
        if slot < self.values.len() {
            Some(&self.values[slot])
        } else {
            None
        }
    }

    /// Ends the store and hands every value it owns to the caller, each one
    /// once, in the order in which they were built.
    pub fn release_all(self) -> (released: Vec<V>)
        requires
            self.wf(),
        ensures
            released@ == self@.values,
    {
        self.values
    }
}

/// A sequence without repeats stays so when a value that it lacks is added.
pub proof fn lemma_push_fresh_keeps_distinct<A>(s: Seq<A>, a: A)
    requires
        s.no_duplicates(),
        !s.contains(a),
    ensures
        s.push(a).no_duplicates(),
{
    let t = s.push(a);
    assert forall|i: int, j: int| 0 <= i < t.len() && 0 <= j < t.len() && i != j implies t[i]
        != t[j] by {
        if i < s.len() && j < s.len() {
        } else if i < s.len() {
            assert(s.contains(s[i]));
        } else {
            assert(s.contains(s[j]));
        }
    }
}

} // verus!

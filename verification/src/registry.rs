//! The registry of one execution context: a store for floats, one for
//! strings and one for booleans, made together and ended together.
use vstd::prelude::*;
use crate::bitwise::BitwiseFloat;
use crate::cacher::{CacheModel, Cacher};

verus! {

/// The kinds of value that can be interned.
#[derive(Copy, Clone, PartialEq, Eq, Debug, Structural)]
pub enum Kind {
    Float,
    Str,
    Bool,
}

/// A key of one of the three kinds.
pub enum Key {
    Float(BitwiseFloat),
    Str(String),
    Bool(bool),
}

/// What a [`Key`] is compared by.
pub enum KeyModel {
    Float(u64),
    Str(Seq<char>),
    Bool(bool),
}

impl KeyModel {
    pub open spec fn kind(self) -> Kind {
        match self {
            KeyModel::Float(_) => Kind::Float,
            KeyModel::Str(_) => Kind::Str,
            KeyModel::Bool(_) => Kind::Bool,
        }
    }
}

impl View for Key {
    type V = KeyModel;

    open spec fn view(&self) -> KeyModel {
        match self {
            Key::Float(f) => KeyModel::Float(f@),
            Key::Str(s) => KeyModel::Str(s@),
            Key::Bool(b) => KeyModel::Bool(*b),
        }
    }
}

/// A stable reference to a boxed value: the store it lives in and its slot
/// there. Two references are the same reference exactly when both parts
/// agree.
#[derive(Copy, Clone, PartialEq, Eq, Debug, Structural)]
pub struct Reference {
    pub kind: Kind,
    pub slot: usize,
}

/// Where a reference points, with the slot as a mathematical integer.
pub struct Place {
    pub kind: Kind,
    pub slot: int,
}

impl View for Reference {
    type V = Place;

    open spec fn view(&self) -> Place {
        Place { kind: self.kind, slot: self.slot as int }
    }
}

/// What a registry holds, as mathematics.
pub struct RegistryModel<V> {
    pub floats: CacheModel<u64, V>,
    pub strings: CacheModel<Seq<char>, V>,
    pub bools: CacheModel<bool, V>,
}

impl<V> RegistryModel<V> {
    pub open spec fn wf(self) -> bool {
        self.floats.wf() && self.strings.wf() && self.bools.wf()
    }

    /// The registry of a context that has just started.
    pub open spec fn empty() -> Self {
        RegistryModel {
            floats: CacheModel::empty(),
            strings: CacheModel::empty(),
            bools: CacheModel::empty(),
        }
    }

    pub open spec fn contains(self, key: KeyModel) -> bool {
        self.place_of(key).is_some()
    }

    /// The number of entries in the store of `kind`.
    pub open spec fn count(self, kind: Kind) -> nat {
        match kind {
            Kind::Float => self.floats.keys.len(),
            Kind::Str => self.strings.keys.len(),
            Kind::Bool => self.bools.keys.len(),
        }
    }

    /// Where the entry of `key` is, if it has one.
    pub open spec fn place_of(self, key: KeyModel) -> Option<Place> {
        let slot = match key {
            KeyModel::Float(f) => self.floats.slot_of(f),
            KeyModel::Str(s) => self.strings.slot_of(s),
            KeyModel::Bool(b) => self.bools.slot_of(b),
        };
        match slot {
            Some(slot) => Some(Place { kind: key.kind(), slot }),
            None => None,
        }
    }

    /// The key of the entry that `place` points to.
    pub open spec fn key_at(self, place: Place) -> Option<KeyModel> {
        if 0 <= place.slot < self.count(place.kind) {
            Some(
                match place.kind {
                    Kind::Float => KeyModel::Float(self.floats.keys[place.slot]),
                    Kind::Str => KeyModel::Str(self.strings.keys[place.slot]),
                    Kind::Bool => KeyModel::Bool(self.bools.keys[place.slot]),
                },
            )
        } else {
            None
        }
    }

    /// The value that `place` points to.
    pub open spec fn value_at(self, place: Place) -> Option<V> {
        if 0 <= place.slot < self.count(place.kind) {
            Some(
                match place.kind {
                    Kind::Float => self.floats.values[place.slot],
                    Kind::Str => self.strings.values[place.slot],
                    Kind::Bool => self.bools.values[place.slot],
                },
            )
        } else {
            None
        }
    }

    /// The registry after `key` was asked for, where `built` is what
    /// building its value gives: only the store of the key's kind can
    /// change, and only by one new entry.
    pub open spec fn after_intern<E>(self, key: KeyModel, built: Result<V, E>) -> Self {
        match key {
            KeyModel::Float(f) => RegistryModel { floats: self.floats.after_intern(f, built), ..self },
            KeyModel::Str(s) => RegistryModel { strings: self.strings.after_intern(s, built), ..self },
            KeyModel::Bool(b) => RegistryModel { bools: self.bools.after_intern(b, built), ..self },
        }
    }

    /// Whether `after` and `outcome` are what interning `key` with
    /// `builder` may leave and answer, starting from `self`.
    ///
    /// A key that has an entry answers with the place of that entry and
    /// changes nothing. A new key answers with what `builder` gives: a
    /// value, which becomes the key's entry at the end of the store of its
    /// kind, or an error, which changes nothing.
    pub open spec fn interned<E, F: FnOnce() -> Result<V, E>>(
        self,
        key: KeyModel,
        builder: F,
        after: Self,
        outcome: Result<Reference, E>,
    ) -> bool {
        if self.contains(key) {
            &&& after == self
            &&& outcome matches Ok(r)
            &&& self.place_of(key) == Some(r@)
            &&& self.key_at(r@) == Some(key)
        } else {
            match outcome {
                Ok(r) => {
                    &&& r@ == (Place { kind: key.kind(), slot: self.count(key.kind()) as int })
                    &&& after.place_of(key) == Some(r@)
                    &&& after.value_at(r@) matches Some(value)
                    &&& builder.ensures((), Ok(value))
                    &&& after == self.after_intern(key, Ok::<V, E>(value))
                },
                Err(e) => builder.ensures((), Err(e)) && after == self,
            }
        }
    }

    /// What asking for `key` answers: the place of its entry, or the error
    /// with which building failed.
    pub open spec fn intern_result<E>(self, key: KeyModel, built: Result<V, E>) -> Result<Place, E> {
        let slot = match key {
            KeyModel::Float(f) => self.floats.intern_result(f, built),
            KeyModel::Str(s) => self.strings.intern_result(s, built),
            KeyModel::Bool(b) => self.bools.intern_result(b, built),
        };
        match slot {
            Ok(slot) => Ok(Place { kind: key.kind(), slot }),
            Err(e) => Err(e),
        }
    }
}

/// The three stores of one execution context.
pub struct Registry<V> {
    pub floats: Cacher<BitwiseFloat, V>,
    pub strings: Cacher<String, V>,
    pub bools: Cacher<bool, V>,
}

/// Every value that a registry owned when it ended, store by store.
pub struct Released<V> {
    pub floats: Vec<V>,
    pub strings: Vec<V>,
    pub bools: Vec<V>,
}

impl<V> View for Registry<V> {
    type V = RegistryModel<V>;

    open spec fn view(&self) -> RegistryModel<V> {
        RegistryModel { floats: self.floats@, strings: self.strings@, bools: self.bools@ }
    }
}

impl<V> Registry<V> {
    pub open spec fn wf(&self) -> bool {
        self@.wf()
    }

    /// A registry with three empty stores.
    pub fn new() -> (registry: Self)
        ensures
            registry.wf(),
            registry@ == RegistryModel::<V>::empty(),
    {
        Registry { floats: Cacher::new(), strings: Cacher::new(), bools: Cacher::new() }
    }

    /// The number of entries in the store of `kind`.
    pub fn count(&self, kind: Kind) -> (n: usize)
        requires
            self.wf(),
        ensures
            n == self@.count(kind),
    {
        match kind {
            Kind::Float => self.floats.len(),
            Kind::Str => self.strings.len(),
            Kind::Bool => self.bools.len(),
        }
    }

    /// The reference to the entry of `key`, if it has one.
    pub fn find(&self, key: &Key) -> (found: Option<Reference>)
        requires
            self.wf(),
        ensures
            match found {
                Some(r) => self@.place_of(key@) == Some(r@) && self@.key_at(r@) == Some(key@),
                None => !self@.contains(key@),
            },
    {
        match key {
            Key::Float(f) => match self.floats.find(f) {
                Some(slot) => Some(Reference { kind: Kind::Float, slot }),
                None => None,
            },
            Key::Str(s) => match self.strings.find(s) {
                Some(slot) => Some(Reference { kind: Kind::Str, slot }),
                None => None,
            },
            Key::Bool(b) => match self.bools.find(b) {
                Some(slot) => Some(Reference { kind: Kind::Bool, slot }),
                None => None,
            },
        }
    }

    /// Asks for `key` when its value has already been built, or has failed
    /// to build, elsewhere.
    pub fn insert_built<E>(&mut self, key: Key, built: Result<V, E>) -> (outcome: Result<
        Reference,
        E,
    >)
        requires
            old(self).wf(),
        ensures
            final(self).wf(),
            final(self)@ == old(self)@.after_intern(key@, built),
            match outcome {
                Ok(r) => {
                    &&& old(self)@.intern_result(key@, built) == Ok::<Place, E>(r@)
                    &&& final(self)@.key_at(r@) == Some(key@)
                    &&& final(self)@.place_of(key@) == Some(r@)
                },
                Err(e) => old(self)@.intern_result(key@, built) == Err::<Place, E>(e),
            },
    {
        match key {
            Key::Float(f) => match self.floats.insert_built(f, built) {
                Ok(slot) => Ok(Reference { kind: Kind::Float, slot }),
                Err(e) => Err(e),
            },
            Key::Str(s) => match self.strings.insert_built(s, built) {
                Ok(slot) => Ok(Reference { kind: Kind::Str, slot }),
                Err(e) => Err(e),
            },
            Key::Bool(b) => match self.bools.insert_built(b, built) {
                Ok(slot) => Ok(Reference { kind: Kind::Bool, slot }),
                Err(e) => Err(e),
            },
        }
    }

    /// Interns `key`. Where the registry has an entry for it, the reference
    /// to that entry is returned and `builder` is not called. Otherwise
    /// `builder` is called once and its value becomes the entry of `key`; if
    /// it fails, its error is returned and the registry is as before.
    pub fn intern<E, F: FnOnce() -> Result<V, E>>(&mut self, key: Key, builder: F) -> (outcome:
        Result<Reference, E>)
        requires
            old(self).wf(),
            !old(self)@.contains(key@) ==> builder.requires(()),
        ensures
            final(self).wf(),
            old(self)@.interned(key@, builder, final(self)@, outcome),
    {
        match self.find(&key) {
            Some(r) => Ok(r),
            None => {
                let built = builder();
                self.insert_built(key, built)
            },
        }
    }

    /// The value that `r` refers to, for every reference that this registry
    /// has handed out.
    pub fn get(&self, r: Reference) -> (value: Option<&V>)
        requires
            self.wf(),
        ensures
            match value {
                Some(v) => self@.value_at(r@) == Some(*v),
                None => self@.value_at(r@).is_none(),
            },
    {
        match r.kind {
            Kind::Float => self.floats.get(r.slot),
            Kind::Str => self.strings.get(r.slot),
            Kind::Bool => self.bools.get(r.slot),
        }
    }

    /// Ends the context: the registry is consumed and every value that it
    /// owns is handed out exactly once.
    pub fn teardown(self) -> (released: Released<V>)
        requires
            self.wf(),
        ensures
            released.floats@ == self@.floats.values,
            released.strings@ == self@.strings.values,
            released.bools@ == self@.bools.values,
    {
        Released {
            floats: self.floats.release_all(),
            strings: self.strings.release_all(),
            bools: self.bools.release_all(),
        }
    }
}

} // verus!

//! The call-site memoizer: a slot that resolves its reference once and
//! answers from it ever after, without another look into the registry.
use vstd::prelude::*;
use crate::registry::{Key, KeyModel, Place, Reference, Registry, RegistryModel};

verus! {

/// The state of one call site's slot.
#[derive(Copy, Clone, PartialEq, Eq, Debug, Structural)]
pub enum SlotState {
    /// Not evaluated yet.
    Uninitialized,
    /// The registry is being asked; the slot must not be entered again.
    Resolving,
    /// Evaluated: the reference stays for the life of the context.
    Resolved(Reference),
}

/// A [`SlotState`] with the reference as a [`Place`].
pub enum SlotModel {
    Uninitialized,
    Resolving,
    Resolved(Place),
}

impl View for SlotState {
    type V = SlotModel;

    open spec fn view(&self) -> SlotModel {
        match self {
            SlotState::Uninitialized => SlotModel::Uninitialized,
            SlotState::Resolving => SlotModel::Resolving,
            SlotState::Resolved(r) => SlotModel::Resolved(r@),
        }
    }
}

impl SlotModel {
    /// What resolving the slot answers against registry `registry`, where
    /// `built` is what building the value of `key` gives.
    pub open spec fn resolve_result<V, E>(
        self,
        registry: RegistryModel<V>,
        key: KeyModel,
        built: Result<V, E>,
    ) -> Result<Place, E> {
        match self {
            SlotModel::Resolved(place) => Ok(place),
            _ => registry.intern_result(key, built),
        }
    }

    /// The slot after it was resolved.
    pub open spec fn after_resolve<V, E>(
        self,
        registry: RegistryModel<V>,
        key: KeyModel,
        built: Result<V, E>,
    ) -> SlotModel {
        match self {
            SlotModel::Resolved(place) => self,
            _ => match registry.intern_result(key, built) {
                Ok(place) => SlotModel::Resolved(place),
                Err(_) => SlotModel::Uninitialized,
            },
        }
    }

    /// The registry after the slot was resolved against it: a resolved slot
    /// leaves it alone.
    pub open spec fn registry_after_resolve<V, E>(
        self,
        registry: RegistryModel<V>,
        key: KeyModel,
        built: Result<V, E>,
    ) -> RegistryModel<V> {
        match self {
            SlotModel::Resolved(_) => registry,
            _ => registry.after_intern(key, built),
        }
    }
}

/// The memo slot of one call site in one execution context.
///
/// A slot belongs to the registry it was first resolved against: the
/// reference it remembers names an entry there and nowhere else.
pub struct CallSite {
    state: SlotState,
}

impl View for CallSite {
    type V = SlotModel;

    closed spec fn view(&self) -> SlotModel {
        self.state@
    }
}

impl CallSite {
    /// A slot that has not been evaluated.
    pub fn new() -> (site: Self)
        ensures
            site@ == SlotModel::Uninitialized,
    {
        CallSite { state: SlotState::Uninitialized }
    }

    /// The slot's state.
    pub fn state(&self) -> (state: SlotState)
        ensures
            state@ == self@,
    {
        self.state
    }

    /// Starts an evaluation. A resolved slot answers with its reference and
    /// stays as it is; a fresh slot answers `None` and is `Resolving` until
    /// [`CallSite::finish`] is called.
    pub fn begin(&mut self) -> (ready: Option<Reference>)
        requires
            !(old(self)@ is Resolving),
        ensures
            match old(self)@ {
                SlotModel::Resolved(place) => final(self)@ == old(self)@ && ready.is_some()
                    && ready.unwrap()@ == place,
                _ => final(self)@ == SlotModel::Resolving && ready.is_none(),
            },
    {
        match self.state {
            SlotState::Resolved(r) => Some(r),
            _ => {
                self.state = SlotState::Resolving;
                None
            },
        }
    }

    /// Ends the evaluation that [`CallSite::begin`] started, with what the
    /// registry answered: a reference resolves the slot for good, an error
    /// leaves it fresh. The answer is passed through.
    pub fn finish<E>(&mut self, answer: Result<Reference, E>) -> (outcome: Result<Reference, E>)
        requires
            old(self)@ is Resolving,
        ensures
            outcome == answer,
            match answer {
                Ok(r) => final(self)@ == SlotModel::Resolved(r@),
                Err(_) => final(self)@ == SlotModel::Uninitialized,
            },
    {
        match answer {
            Ok(r) => {
                self.state = SlotState::Resolved(r);
                Ok(r)
            },
            Err(e) => {
                self.state = SlotState::Uninitialized;
                Err(e)
            },
        }
    }

    /// Evaluates the call site when the value of `key` has already been
    /// built, or has failed to build, elsewhere. A resolved slot discards
    /// `built` and leaves the registry alone.
    pub fn resolve_built<V, E>(
        &mut self,
        registry: &mut Registry<V>,
        key: Key,
        built: Result<V, E>,
    ) -> (outcome: Result<Reference, E>)
        requires
            old(registry).wf(),
            !(old(self)@ is Resolving),
        ensures
            final(registry).wf(),
            final(self)@ == old(self)@.after_resolve(old(registry)@, key@, built),
            final(registry)@ == old(self)@.registry_after_resolve(old(registry)@, key@, built),
            match outcome {
                Ok(r) => old(self)@.resolve_result(old(registry)@, key@, built) == Ok::<Place, E>(
                    r@,
                ),
                Err(e) => old(self)@.resolve_result(old(registry)@, key@, built) == Err::<Place, E>(
                    e,
                ),
            },
    {
        match self.begin() {
            Some(r) => Ok(r),
            None => {
                let answer = registry.insert_built(key, built);
                self.finish(answer)
            },
        }
    }

    /// Evaluates the call site. The first evaluation interns `key` in
    /// `registry` and remembers the reference; every later one returns the
    /// remembered reference and touches neither the registry nor `builder`.
    /// An evaluation that fails leaves the slot fresh.
    pub fn resolve<V, E, F: FnOnce() -> Result<V, E>>(
        &mut self,
        registry: &mut Registry<V>,
        key: Key,
        builder: F,
    ) -> (outcome: Result<Reference, E>)
        requires
            old(registry).wf(),
            !(old(self)@ is Resolving),
            old(self)@ is Uninitialized && !old(registry)@.contains(key@) ==> builder.requires(()),
        ensures
            final(registry).wf(),
            old(self)@ matches SlotModel::Resolved(place) ==> {
                &&& outcome matches Ok(r)
                &&& r@ == place
                &&& final(self)@ == old(self)@
                &&& final(registry)@ == old(registry)@
            },
            old(self)@ is Uninitialized ==> match outcome {
                Ok(r) => final(self)@ == SlotModel::Resolved(r@),
                Err(_) => final(self)@ == SlotModel::Uninitialized,
            },
            old(self)@ is Uninitialized ==> old(registry)@.interned(
                key@,
                builder,
                final(registry)@,
                outcome,
            ),
    {
        match self.begin() {
            Some(r) => Ok(r),
            None => {
                let answer = registry.intern(key, builder);
                self.finish(answer)
            },
        }
    }
}

} // verus!

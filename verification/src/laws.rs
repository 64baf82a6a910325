//! What holds of the cache whatever is interned, stated over the models
//! that the contracts of the stores, the registry and the call sites use.
use vstd::prelude::*;
use crate::cacher::{lemma_push_fresh_keeps_distinct, CacheModel};
use crate::memo::SlotModel;
use crate::registry::{KeyModel, Place, RegistryModel};

verus! {

/// Asking a store for a key keeps its invariant, keeps every entry it had
/// in its slot, and adds at most one.
pub proof fn lemma_store_only_grows<K, V, E>(store: CacheModel<K, V>, key: K, built: Result<V, E>)
    requires
        store.wf(),
    ensures
        store.after_intern(key, built).wf(),
        store.keys.is_prefix_of(store.after_intern(key, built).keys),
        store.values.is_prefix_of(store.after_intern(key, built).values),
        store.after_intern(key, built).keys.len() <= store.keys.len() + 1,
        store.after_intern(key, built).keys.len() == store.keys.len() + 1 <==> !store.contains(key)
            && built.is_ok(),
{
    if !store.contains(key) {
        lemma_push_fresh_keeps_distinct(store.keys, key);
    }
}

/// The store after a run of requests, each a key with what building its
/// value gives, in the order in which they were made.
pub open spec fn after_all<K, V, E>(store: CacheModel<K, V>, asks: Seq<(K, Result<V, E>)>) -> CacheModel<
    K,
    V,
>
    decreases asks.len(),
{
    if asks.len() == 0 {
        store
    } else {
        after_all(store, asks.drop_last()).after_intern(asks.last().0, asks.last().1)
    }
}

/// The values that a run of requests creates: one for each request whose
/// key was new when it was made and whose value could be built.
pub open spec fn created<K, V, E>(store: CacheModel<K, V>, asks: Seq<(K, Result<V, E>)>) -> Seq<V>
    decreases asks.len(),
{
    if asks.len() == 0 {
        Seq::empty()
    } else {
        let earlier = created(store, asks.drop_last());
        let (key, built) = asks.last();
        if after_all(store, asks.drop_last()).contains(key) {
            earlier
        } else {
            match built {
                Ok(value) => earlier.push(value),
                Err(_) => earlier,
            }
        }
    }
}

/// After any run of requests a store owns what it owned before and, behind
/// that, each value that the run created, once and in the order of
/// creation. These are the values that ending the store hands out.
pub proof fn lemma_store_owns_what_was_created<K, V, E>(
    store: CacheModel<K, V>,
    asks: Seq<(K, Result<V, E>)>,
)
    requires
        store.wf(),
    ensures
        after_all(store, asks).wf(),
        after_all(store, asks).values == store.values + created(store, asks),
    decreases asks.len(),
{
    if asks.len() == 0 {
        assert(store.values + Seq::<V>::empty() =~= store.values);
    } else {
        let before = after_all(store, asks.drop_last());
        let (key, built) = asks.last();
        lemma_store_owns_what_was_created(store, asks.drop_last());
        lemma_store_only_grows(before, key, built);
        let earlier = created(store, asks.drop_last());
        if !before.contains(key) {
            match built {
                Ok(value) => {
                    assert((store.values + earlier).push(value) =~= store.values + earlier.push(
                        value,
                    ));
                },
                Err(_) => {},
            }
        }
    }
}

/// A key that was interned with success is in the store afterwards, at the
/// slot that was answered, and no other slot holds it.
pub proof fn lemma_store_answer_is_the_entry<K, V, E>(
    store: CacheModel<K, V>,
    key: K,
    built: Result<V, E>,
)
    requires
        store.wf(),
        store.intern_result(key, built).is_ok(),
    ensures
        ({
            let after = store.after_intern(key, built);
            let slot = store.intern_result(key, built)->Ok_0;
            &&& 0 <= slot < after.keys.len()
            &&& after.keys[slot] == key
            &&& after.slot_of(key) == Some(slot)
            &&& forall|i: int| 0 <= i < after.keys.len() && after.keys[i] == key ==> i == slot
        }),
{
    let after = store.after_intern(key, built);
    let slot = store.intern_result(key, built)->Ok_0;
    lemma_store_only_grows(store, key, built);
    if store.contains(key) {
        store.keys.index_of_first_ensures(key);
    } else {
        assert(after.keys[slot] == key);
    }
    assert(after.keys.contains(key));
    after.keys.index_of_first_ensures(key);
}

/// Interning keeps the registry's invariant, and every reference that was
/// valid before names the same value afterwards: entries are never changed
/// or removed.
pub proof fn lemma_references_stay_valid<V, E>(
    registry: RegistryModel<V>,
    key: KeyModel,
    built: Result<V, E>,
    place: Place,
)
    requires
        registry.wf(),
        registry.value_at(place).is_some(),
    ensures
        registry.after_intern(key, built).wf(),
        registry.after_intern(key, built).value_at(place) == registry.value_at(place),
{
    match key {
        KeyModel::Float(f) => lemma_store_only_grows(registry.floats, f, built),
        KeyModel::Str(s) => lemma_store_only_grows(registry.strings, s, built),
        KeyModel::Bool(b) => lemma_store_only_grows(registry.bools, b, built),
    }
}

/// Interning keeps the registry's invariant.
pub proof fn lemma_intern_keeps_wf<V, E>(registry: RegistryModel<V>, key: KeyModel, built: Result<V, E>)
    requires
        registry.wf(),
    ensures
        registry.after_intern(key, built).wf(),
{
    match key {
        KeyModel::Float(f) => lemma_store_only_grows(registry.floats, f, built),
        KeyModel::Str(s) => lemma_store_only_grows(registry.strings, s, built),
        KeyModel::Bool(b) => lemma_store_only_grows(registry.bools, b, built),
    }
}

/// A key that was interned with success has its entry at the place that was
/// answered, holding the value that was built for it if the key was new.
pub proof fn lemma_interned_key_is_found<V, E>(
    registry: RegistryModel<V>,
    key: KeyModel,
    built: Result<V, E>,
)
    requires
        registry.wf(),
        registry.intern_result(key, built).is_ok(),
    ensures
        registry.after_intern(key, built).place_of(key) == Some(
            registry.intern_result(key, built)->Ok_0,
        ),
        !registry.contains(key) ==> built.is_ok() && registry.after_intern(key, built).value_at(
            registry.intern_result(key, built)->Ok_0,
        ) == Some(built->Ok_0),
{
    match key {
        KeyModel::Float(f) => lemma_store_answer_is_the_entry(registry.floats, f, built),
        KeyModel::Str(s) => lemma_store_answer_is_the_entry(registry.strings, s, built),
        KeyModel::Bool(b) => lemma_store_answer_is_the_entry(registry.bools, b, built),
    }
}

/// Interning the same key a second time answers the same place, builds
/// nothing and leaves the registry as the first call left it, whatever the
/// second builder would have given.
pub proof fn lemma_same_key_same_reference<V, E>(
    registry: RegistryModel<V>,
    key: KeyModel,
    first: Result<V, E>,
    second: Result<V, E>,
)
    requires
        registry.wf(),
        registry.intern_result(key, first).is_ok(),
    ensures
        ({
            let after = registry.after_intern(key, first);
            &&& after.intern_result(key, second) == registry.intern_result(key, first)
            &&& after.after_intern(key, second) == after
        }),
{
    lemma_interned_key_is_found(registry, key, first);
}

/// Two keys interned one after the other get the same place exactly when
/// they are the same key. For floats the key is the bit pattern, so floats
/// of different bits, equal as numbers or not, get different places.
pub proof fn lemma_same_reference_iff_same_key<V, E>(
    registry: RegistryModel<V>,
    a: KeyModel,
    b: KeyModel,
    built_a: Result<V, E>,
    built_b: Result<V, E>,
)
    requires
        registry.wf(),
        registry.intern_result(a, built_a).is_ok(),
        registry.after_intern(a, built_a).intern_result(b, built_b).is_ok(),
    ensures
        registry.after_intern(a, built_a).intern_result(b, built_b) == registry.intern_result(
            a,
            built_a,
        ) <==> a == b,
{
    let after = registry.after_intern(a, built_a);
    let place_a = registry.intern_result(a, built_a)->Ok_0;
    let place_b = after.intern_result(b, built_b)->Ok_0;
    lemma_intern_keeps_wf(registry, a, built_a);
    if a == b {
        lemma_same_key_same_reference(registry, a, built_a, built_b);
    } else if place_a == place_b {
        let last = after.after_intern(b, built_b);
        match (a, b) {
            (KeyModel::Float(x), KeyModel::Float(y)) => {
                lemma_store_answer_is_the_entry(registry.floats, x, built_a);
                lemma_store_answer_is_the_entry(after.floats, y, built_b);
                lemma_store_only_grows(after.floats, y, built_b);
                assert(last.floats.keys[place_a.slot] == x);
            },
            (KeyModel::Str(x), KeyModel::Str(y)) => {
                lemma_store_answer_is_the_entry(registry.strings, x, built_a);
                lemma_store_answer_is_the_entry(after.strings, y, built_b);
                lemma_store_only_grows(after.strings, y, built_b);
                assert(last.strings.keys[place_a.slot] == x);
            },
            (KeyModel::Bool(x), KeyModel::Bool(y)) => {
                lemma_store_answer_is_the_entry(registry.bools, x, built_a);
                lemma_store_answer_is_the_entry(after.bools, y, built_b);
                lemma_store_only_grows(after.bools, y, built_b);
                assert(last.bools.keys[place_a.slot] == x);
            },
            _ => {},
        }
    }
}

/// A call site that resolved once answers the same reference at every later
/// evaluation, whatever key and builder it is then given, and leaves the
/// registry untouched.
pub proof fn lemma_call_site_answers_the_same<V, E>(
    site: SlotModel,
    registry: RegistryModel<V>,
    key: KeyModel,
    built: Result<V, E>,
    later_key: KeyModel,
    later_built: Result<V, E>,
)
    requires
        registry.wf(),
        !(site is Resolving),
        site.resolve_result(registry, key, built).is_ok(),
    ensures
        ({
            let site1 = site.after_resolve(registry, key, built);
            let registry1 = site.registry_after_resolve(registry, key, built);
            &&& site1.resolve_result(registry1, later_key, later_built) == site.resolve_result(
                registry,
                key,
                built,
            )
            &&& site1.after_resolve(registry1, later_key, later_built) == site1
            &&& site1.registry_after_resolve(registry1, later_key, later_built) == registry1
        }),
{
}

/// Two fresh call sites that intern the same key resolve to the one entry
/// of that key: the second gets the reference that the first got, and
/// nothing is built for it.
pub proof fn lemma_call_sites_share_the_entry<V, E>(
    registry: RegistryModel<V>,
    key: KeyModel,
    first: Result<V, E>,
    second: Result<V, E>,
)
    requires
        registry.wf(),
        SlotModel::Uninitialized.resolve_result(registry, key, first).is_ok(),
    ensures
        ({
            let fresh = SlotModel::Uninitialized;
            let registry1 = fresh.registry_after_resolve(registry, key, first);
            &&& fresh.resolve_result(registry1, key, second) == fresh.resolve_result(
                registry,
                key,
                first,
            )
            &&& fresh.registry_after_resolve(registry1, key, second) == registry1
            &&& fresh.after_resolve(registry1, key, second) == fresh.after_resolve(
                registry,
                key,
                first,
            )
        }),
{
    lemma_same_key_same_reference(registry, key, first, second);
}

} // verus!

//! The kinds of value that can be interned, each with the key it is cached
//! under.
use vstd::prelude::*;
use crate::bitwise::{float_bits_of, BitwiseFloat};
use crate::registry::{Key, KeyModel, Reference, Registry};

verus! {

/// A value of a supported kind: a float by its bits, an integer of up to 32
/// bits, a string or a boolean. Integers are cached under the key of the
/// float they widen to, so that all numbers share the float store.
pub trait CacheJsIntern__: Sized {
    /// The key under which the value is cached.
    spec fn cache_key(self) -> KeyModel;

    /// The same key, for use in the registry.
    fn into_key(self) -> (key: Key)
        ensures
            key@ == self.cache_key(),
    ;

    /// Interns the value in `registry`: the reference to the entry of its
    /// key, which is built by `builder` if the key is new.
    fn cache_js_intern__<V, E, F: FnOnce() -> Result<V, E>>(
        self,
        registry: &mut Registry<V>,
        builder: F,
    ) -> (outcome: Result<Reference, E>)
        requires
            old(registry).wf(),
            !old(registry)@.contains(self.cache_key()) ==> builder.requires(()),
        ensures
            final(registry).wf(),
            old(registry)@.interned(self.cache_key(), builder, final(registry)@, outcome),
    {
        let key = self.into_key();
        registry.intern(key, builder)
    }
}

impl CacheJsIntern__ for BitwiseFloat {
    open spec fn cache_key(self) -> KeyModel {
        KeyModel::Float(self@)
    }

    fn into_key(self) -> (key: Key) {
        Key::Float(self)
    }
}

impl CacheJsIntern__ for &str {
    open spec fn cache_key(self) -> KeyModel {
        KeyModel::Str(self@)
    }

    fn into_key(self) -> (key: Key) {
        Key::Str(self.to_owned())
    }
}

impl CacheJsIntern__ for bool {
    open spec fn cache_key(self) -> KeyModel {
        KeyModel::Bool(self)
    }

    fn into_key(self) -> (key: Key) {
        Key::Bool(self)
    }
}

impl CacheJsIntern__ for u8 {
    open spec fn cache_key(self) -> KeyModel {
        KeyModel::Float(float_bits_of(self as int))
    }

    fn into_key(self) -> (key: Key) {
        Key::Float(BitwiseFloat::from_u8(self))
    }
}

impl CacheJsIntern__ for u16 {
    open spec fn cache_key(self) -> KeyModel {
        KeyModel::Float(float_bits_of(self as int))
    }

    fn into_key(self) -> (key: Key) {
        Key::Float(BitwiseFloat::from_u16(self))
    }
}

impl CacheJsIntern__ for u32 {
    open spec fn cache_key(self) -> KeyModel {
        KeyModel::Float(float_bits_of(self as int))
    }

    fn into_key(self) -> (key: Key) {
        Key::Float(BitwiseFloat::from_u32(self))
    }
}

impl CacheJsIntern__ for i8 {
    open spec fn cache_key(self) -> KeyModel {
        KeyModel::Float(float_bits_of(self as int))
    }

    fn into_key(self) -> (key: Key) {
        Key::Float(BitwiseFloat::from_i8(self))
    }
}

impl CacheJsIntern__ for i16 {
    open spec fn cache_key(self) -> KeyModel {
        KeyModel::Float(float_bits_of(self as int))
    }

    fn into_key(self) -> (key: Key) {
        Key::Float(BitwiseFloat::from_i16(self))
    }
}

impl CacheJsIntern__ for i32 {
    open spec fn cache_key(self) -> KeyModel {
        KeyModel::Float(float_bits_of(self as int))
    }

    fn into_key(self) -> (key: Key) {
        Key::Float(BitwiseFloat::from_i32(self))
    }
}

} // verus!

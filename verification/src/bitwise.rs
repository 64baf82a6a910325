//! Cache keys, and the rule by which two of them are the same key.
use vstd::prelude::*;
use vstd::arithmetic::power2::{
    lemma2_to64, lemma2_to64_rest, lemma_pow2_pos, lemma_pow2_strictly_increases,
    lemma_pow2_unfold, pow2,
};

verus! {

/// A 64-bit float held by its raw bit pattern.
///
/// Two keys are the same exactly when their bit patterns are: `0.0` and
/// `-0.0` differ, and a NaN equals only a NaN of the same bits.
#[derive(Copy, Clone, Hash, Eq, PartialEq, Debug, Structural)]
pub struct BitwiseFloat(pub u64);

impl View for BitwiseFloat {
    type V = u64;

    open spec fn view(&self) -> u64 {
        self.0
    }
}

impl BitwiseFloat {
    /// The key of the float whose bit pattern is `bits`.
    pub fn from_bits(bits: u64) -> (key: BitwiseFloat)
        ensures
            key@ == bits,
    {
        BitwiseFloat(bits)
    }

    /// The bit pattern of the float that this key stands for.
    pub fn to_bits(self) -> (bits: u64)
        ensures
            bits == self@,
    {
        self.0
    }

    /// The key of the float that an unsigned integer widens to.
    pub fn from_u32(value: u32) -> (key: BitwiseFloat)
        ensures
            denotes(key@, value as int),
            sign_of(key@) == 0,
            key@ == float_bits_of(value as int),
    {
        if value == 0 {
            proof {
                lemma_widening_is_pinned(0, 0);
            }
            return BitwiseFloat(0);
        }
        let wide: u64 = value as u64;
        let mut exponent: u64 = 0;
        let mut unit: u64 = 1;
        let mut scale: u64 = 0x10_0000_0000_0000;
        proof {
            lemma2_to64();
            lemma2_to64_rest();
        }
        while unit * 2 <= wide
            invariant
                wide == value,
                exponent <= 31,
                unit == pow2(exponent as nat),
                scale == pow2((52 - exponent) as nat),
                unit * scale == 0x10_0000_0000_0000,
                1 <= unit <= wide,
                pow2(32) == 0x1_0000_0000,
            decreases wide - unit,
        {
            proof {
                lemma_pow2_unfold((exponent + 1) as nat);
                lemma_pow2_unfold((52 - exponent) as nat);
                if exponent == 31 {
                    assert(unit * 2 == pow2(32));
                }
                assert((unit * 2) * (scale / 2) == unit * scale) by (nonlinear_arith)
                    requires
                        scale % 2 == 0,
                ;
            }
            unit = unit * 2;
            scale = scale / 2;
            exponent = exponent + 1;
        }
        let over: u64 = wide - unit;
        proof {
            assert(over * scale < 0x10_0000_0000_0000 && over * scale >= 0) by (nonlinear_arith)
                requires
                    0 <= over < unit,
                    scale > 0,
                    unit * scale == 0x10_0000_0000_0000,
            ;
        }
        let fraction: u64 = over * scale;
        let bits: u64 = (1023 + exponent) * 0x10_0000_0000_0000 + fraction;
        proof {
            let biased = 1023 + exponent;
            assert(bits / 0x10_0000_0000_0000 == biased && bits % 0x10_0000_0000_0000 == fraction);
            assert(exponent_of(bits) == biased);
            assert(fraction_of(bits) == fraction);
            assert(wide * pow2(52) == (pow2(52) + fraction) * unit) by (nonlinear_arith)
                requires
                    fraction == (wide - unit) * scale,
                    unit * scale == pow2(52),
            ;
            lemma_widening_is_pinned(bits, value as int);
        }
        BitwiseFloat(bits)
    }

    /// The key of the float that a signed integer widens to.
    pub fn from_i32(value: i32) -> (key: BitwiseFloat)
        ensures
            denotes(key@, value as int),
            value >= 0 ==> sign_of(key@) == 0,
            key@ == float_bits_of(value as int),
    {
        if value >= 0 {
            BitwiseFloat::from_u32(value as u32)
        } else {
            let size: u32 = if value == i32::MIN {
                0x8000_0000
            } else {
                (-value) as u32
            };
            let plain = BitwiseFloat::from_u32(size);
            let bits: u64 = plain.0 + 0x8000_0000_0000_0000;
            proof {
                lemma_widening_is_pinned(bits, value as int);
            }
            BitwiseFloat(bits)
        }
    }

    /// The key of the float that `value` widens to.
    pub fn from_u16(value: u16) -> (key: BitwiseFloat)
        ensures
            denotes(key@, value as int),
            sign_of(key@) == 0,
            key@ == float_bits_of(value as int),
    {
        BitwiseFloat::from_u32(value as u32)
    }

    /// The key of the float that `value` widens to.
    pub fn from_u8(value: u8) -> (key: BitwiseFloat)
        ensures
            denotes(key@, value as int),
            sign_of(key@) == 0,
            key@ == float_bits_of(value as int),
    {
        BitwiseFloat::from_u32(value as u32)
    }

    /// The key of the float that `value` widens to.
    pub fn from_i16(value: i16) -> (key: BitwiseFloat)
        ensures
            denotes(key@, value as int),
            value >= 0 ==> sign_of(key@) == 0,
            key@ == float_bits_of(value as int),
    {
        BitwiseFloat::from_i32(value as i32)
    }

    /// The key of the float that `value` widens to.
    pub fn from_i8(value: i8) -> (key: BitwiseFloat)
        ensures
            denotes(key@, value as int),
            value >= 0 ==> sign_of(key@) == 0,
            key@ == float_bits_of(value as int),
    {
        BitwiseFloat::from_i32(value as i32)
    }
}

/// The sign bit of a bit pattern.
pub open spec fn sign_of(bits: u64) -> int {
    bits as int / 0x8000_0000_0000_0000
}

/// The exponent field of a bit pattern, with its bias of 1023.
pub open spec fn exponent_of(bits: u64) -> int {
    (bits as int / 0x10_0000_0000_0000) % 0x800
}

/// The fraction field of a bit pattern.
pub open spec fn fraction_of(bits: u64) -> int {
    bits as int % 0x10_0000_0000_0000
}

/// Whether the float of bit pattern `bits` is the integer `value`: a zero of
/// either sign for 0; else a normal number of the sign of `value` whose
/// significand, scaled by its exponent, is the size of `value`.
pub open spec fn denotes(bits: u64, value: int) -> bool {
    if value == 0 {
        exponent_of(bits) == 0 && fraction_of(bits) == 0
    } else {
        &&& (sign_of(bits) == 1) == (value < 0)
        &&& 1023 <= exponent_of(bits) < 2047
        &&& (if value < 0 {
            -value
        } else {
            value
        }) * pow2(52) == (pow2(52) + fraction_of(bits)) * pow2((exponent_of(bits) - 1023) as nat)
    }
}

/// The bit pattern of the float that the integer `value` widens to: the one
/// that [`denotes`] it, with the sign bit clear for zero.
pub open spec fn float_bits_of(value: int) -> u64 {
    choose|bits: u64| denotes(bits, value) && (value >= 0 ==> sign_of(bits) == 0)
}

/// A bit pattern that denotes `value`, positive where it is zero, is the
/// one that `value` widens to.
pub proof fn lemma_widening_is_pinned(bits: u64, value: int)
    requires
        denotes(bits, value),
        value >= 0 ==> sign_of(bits) == 0,
    ensures
        bits == float_bits_of(value),
{
    lemma_denotes_pins_bits(bits, float_bits_of(value), value);
}

/// A bit pattern is the float of at most one integer.
pub proof fn lemma_denotes_one_value(bits: u64, a: int, b: int)
    requires
        denotes(bits, a),
        denotes(bits, b),
    ensures
        a == b,
{
    lemma2_to64_rest();
    if a != 0 && b != 0 {
        let size_a = if a < 0 { -a } else { a };
        let size_b = if b < 0 { -b } else { b };
        assert(size_a == size_b) by (nonlinear_arith)
            requires
                size_a * pow2(52) == size_b * pow2(52),
                pow2(52) > 0,
        ;
    }
}

/// An integer is the float of one bit pattern of each sign: the widening
/// of an integer is pinned by [`denotes`] and the sign.
pub proof fn lemma_denotes_pins_bits(a: u64, b: u64, value: int)
    requires
        denotes(a, value),
        denotes(b, value),
        sign_of(a) == sign_of(b),
    ensures
        a == b,
{
    lemma2_to64_rest();
    if value != 0 {
        let size = if value < 0 { -value } else { value };
        let ea = (exponent_of(a) - 1023) as nat;
        let eb = (exponent_of(b) - 1023) as nat;
        let fa = fraction_of(a);
        let fb = fraction_of(b);
        lemma_pow2_pos(ea);
        lemma_pow2_pos(eb);
        if ea < eb {
            lemma_exponents_disagree(fa, fb, ea, eb);
        } else if eb < ea {
            lemma_exponents_disagree(fb, fa, eb, ea);
        } else {
            assert(fa == fb) by (nonlinear_arith)
                requires
                    (pow2(52) + fa) * pow2(ea) == (pow2(52) + fb) * pow2(ea),
                    pow2(ea) > 0,
            ;
        }
    }
}

/// A significand at a smaller exponent is below every significand at a
/// larger one.
proof fn lemma_exponents_disagree(fa: int, fb: int, ea: nat, eb: nat)
    requires
        0 <= fa < pow2(52),
        0 <= fb,
        ea < eb,
    ensures
        (pow2(52) + fa) * pow2(ea) < (pow2(52) + fb) * pow2(eb),
{
    lemma_pow2_pos(ea);
    lemma_pow2_strictly_increases(ea, (ea + 1) as nat);
    lemma_pow2_unfold((ea + 1) as nat);
    if ea + 1 < eb {
        lemma_pow2_strictly_increases((ea + 1) as nat, eb);
    }
    let low = pow2(ea) as int;
    let high = pow2(eb) as int;
    let one = pow2(52) as int;
    assert((one + fa) * low < (one + fb) * high) by (nonlinear_arith)
        requires
            0 <= fa < one,
            0 <= fb,
            0 < low,
            2 * low <= high,
    ;
}

/// A value that can key a cache: its view is what the cache compares.
pub trait InternKey: View + Sized {
    /// Whether `self` and `other` are the same key.
    fn same_key(&self, other: &Self) -> (same: bool)
        ensures
            same == (self@ == other@),
    ;
}

impl InternKey for BitwiseFloat {
    fn same_key(&self, other: &Self) -> (same: bool) {
        self.0 == other.0
    }
}

impl InternKey for bool {
    fn same_key(&self, other: &Self) -> (same: bool) {
        *self == *other
    }
}

impl InternKey for String {
    fn same_key(&self, other: &Self) -> (same: bool) {
        *self == *other
    }
}

} // verus!

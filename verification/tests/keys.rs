use js_intern::bitwise::{BitwiseFloat, InternKey};
use js_intern::eligibility::{is_conservatively_const, try_js_intern, ExprShape, Rewrite};

#[test]
fn bitwise_float_round_trips_its_bits() {
    for value in [20.0f64, -0.0, 0.0, f64::NAN, f64::INFINITY, f64::MIN_POSITIVE, 1.5e300] {
        let key = BitwiseFloat::from_bits(value.to_bits());
        assert_eq!(key.to_bits(), value.to_bits());
        assert_eq!(key, BitwiseFloat(value.to_bits()));
    }
    assert_eq!(f64::from_bits(BitwiseFloat::from_bits(20.0f64.to_bits()).to_bits()), 20.0);
}

#[test]
fn keys_compare_by_bits_not_by_number() {
    let plus = BitwiseFloat::from_bits(0.0f64.to_bits());
    let minus = BitwiseFloat::from_bits((-0.0f64).to_bits());
    assert!(0.0f64 == -0.0f64);
    assert_ne!(plus, minus);
    assert!(!plus.same_key(&minus));
    let nan = BitwiseFloat::from_bits(f64::NAN.to_bits());
    assert!(f64::NAN != f64::NAN);
    assert!(nan.same_key(&nan));
    assert!(!nan.same_key(&BitwiseFloat::from_bits(f64::NAN.to_bits() ^ 1)));
    assert!(true.same_key(&true) && !true.same_key(&false));
    assert!("a".to_owned().same_key(&"a".to_owned()));
    assert!(!"a".to_owned().same_key(&"b".to_owned()));
}

#[test]
fn unsigned_integers_widen_to_their_float_bits() {
    assert_eq!(BitwiseFloat::from_u32(0).to_bits(), 0);
    assert_eq!(BitwiseFloat::from_u32(1).to_bits(), 0x3ff0_0000_0000_0000);
    assert_eq!(BitwiseFloat::from_u32(2).to_bits(), 0x4000_0000_0000_0000);
    assert_eq!(BitwiseFloat::from_u32(3).to_bits(), 0x4008_0000_0000_0000);
    assert_eq!(BitwiseFloat::from_u32(u32::MAX).to_bits(), 0x41ef_ffff_ffe0_0000);
    let mut v: u32 = 1;
    for _ in 0..2000 {
        assert_eq!(BitwiseFloat::from_u32(v).to_bits(), (v as f64).to_bits());
        v = v.wrapping_mul(2_654_435_761).wrapping_add(12345);
    }
    for shift in 0..32 {
        let p = 1u32 << shift;
        assert_eq!(BitwiseFloat::from_u32(p).to_bits(), (p as f64).to_bits());
        assert_eq!(BitwiseFloat::from_u32(p - 1).to_bits(), ((p - 1) as f64).to_bits());
    }
    for v in 0..=u8::MAX {
        assert_eq!(BitwiseFloat::from_u8(v).to_bits(), (v as f64).to_bits());
    }
    for v in [0u16, 1, 255, 256, 12345, u16::MAX] {
        assert_eq!(BitwiseFloat::from_u16(v).to_bits(), (v as f64).to_bits());
    }
}

#[test]
fn signed_integers_widen_to_their_float_bits() {
    assert_eq!(BitwiseFloat::from_i32(0).to_bits(), 0);
    assert_eq!(BitwiseFloat::from_i32(-1).to_bits(), 0xbff0_0000_0000_0000);
    assert_eq!(BitwiseFloat::from_i32(-3).to_bits(), 0xc008_0000_0000_0000);
    assert_eq!(BitwiseFloat::from_i32(i32::MIN).to_bits(), 0xc1e0_0000_0000_0000);
    assert_eq!(BitwiseFloat::from_i32(i32::MAX).to_bits(), 0x41df_ffff_ffc0_0000);
    let mut v: i32 = -7;
    for _ in 0..2000 {
        assert_eq!(BitwiseFloat::from_i32(v).to_bits(), (v as f64).to_bits());
        v = v.wrapping_mul(1_103_515_245).wrapping_add(12345);
    }
    for v in i8::MIN..=i8::MAX {
        assert_eq!(BitwiseFloat::from_i8(v).to_bits(), (v as f64).to_bits());
    }
    for v in [i16::MIN, -256, -1, 0, 1, 255, i16::MAX] {
        assert_eq!(BitwiseFloat::from_i16(v).to_bits(), (v as f64).to_bits());
    }
}

#[test]
fn integer_one_and_float_one_are_the_same_key() {
    assert_eq!(BitwiseFloat::from_i32(1), BitwiseFloat::from_bits(1.0f64.to_bits()));
    assert_eq!(BitwiseFloat::from_u8(1), BitwiseFloat::from_bits((1.0f32 as f64).to_bits()));
}

#[test]
fn only_plain_literals_are_taken_for_constant() {
    assert!(is_conservatively_const(&ExprShape::Lit { attrs: 0 }));
    assert!(!is_conservatively_const(&ExprShape::Lit { attrs: 1 }));
    assert!(!is_conservatively_const(&ExprShape::Other));
    let grouped = ExprShape::Group(Box::new(ExprShape::Group(Box::new(ExprShape::Lit { attrs: 0 }))));
    assert!(is_conservatively_const(&grouped));
    let grouped_other = ExprShape::Group(Box::new(ExprShape::Other));
    assert!(!is_conservatively_const(&grouped_other));
    let grouped_attr = ExprShape::Group(Box::new(ExprShape::Lit { attrs: 2 }));
    assert!(!is_conservatively_const(&grouped_attr));
}

#[test]
fn constant_expressions_are_routed_to_the_cache() {
    assert_eq!(try_js_intern(&ExprShape::Lit { attrs: 0 }), Rewrite::Intern);
    assert_eq!(try_js_intern(&ExprShape::Lit { attrs: 3 }), Rewrite::Keep);
    assert_eq!(try_js_intern(&ExprShape::Other), Rewrite::Keep);
    assert_eq!(
        try_js_intern(&ExprShape::Group(Box::new(ExprShape::Lit { attrs: 0 }))),
        Rewrite::Intern
    );
}

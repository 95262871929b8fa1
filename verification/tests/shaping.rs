use floaters::float::{
    canonical_bits_f64, exponent_bits_f64, noncanonical_bits_f32, noncanonical_bits_f64,
    signed_uniform_parts_f32, signed_uniform_parts_f64, u32_from_u64, with_params_bits_f64,
};
use floaters::generators::{Xoroshiro256pp, Xorshift128p};
use floaters::Sign;

// The scale factors the historical float layer multiplies the canonical
// integer draws by.
const CANONICAL_SCALE_F64: f64 = 1.110223e-16;
const CANONICAL_SCALE_F32: f32 = 1.192093e-07;

#[test]
fn canonical_stays_in_unit_interval() {
    let mut e = Xorshift128p::new_from_str("canonical range check");
    for _ in 0..200 {
        let bits = e.canonical_bits();
        assert!(bits < 1u64 << 53);
        let value = bits as f64 * CANONICAL_SCALE_F64;
        assert!((0.0..1.0).contains(&value));
    }
    let mut e = Xoroshiro256pp::new_from_str("canonical range check");
    for _ in 0..200 {
        let value = e.canonical_bits() as f64 * CANONICAL_SCALE_F64;
        assert!((0.0..1.0).contains(&value));
    }
}

#[test]
fn canonical_known_value_from_bytes() {
    let mut e = Xorshift128p::new_from_bytes(&[0x12, 0x23, 0x34, 0x35]);
    e.init(1337);
    let value = e.canonical_bits() as f64 * CANONICAL_SCALE_F64;
    assert_eq!(value, 0.4392372924505977);
}

#[test]
fn noncanonical_never_zero_or_one() {
    let mut e = Xoroshiro256pp::new_from_bytes(&[42]);
    for _ in 0..200 {
        let value = f64::from_bits(e.noncanonical_bits());
        assert!(value > 0.0);
        assert!(value < 1.0);
    }
}

#[test]
fn noncanonical_extreme_words_hit_documented_bounds() {
    // The all-zero word gives the policy's minimum, the all-one word the
    // maximum double below one.
    assert_eq!(f64::from_bits(noncanonical_bits_f64(0)), 0.000030517578125);
    assert_eq!(
        f64::from_bits(noncanonical_bits_f64(u64::MAX)),
        0.9999999999999999
    );
    assert_eq!(f32::from_bits(noncanonical_bits_f32(0)), 0.0078125);
    assert_eq!(f32::from_bits(noncanonical_bits_f32(u32::MAX)), 0.99999994);
}

#[test]
fn with_params_default_state_known_value() {
    // The default all-ones engine, no warm-up, shift 55, signed.
    let mut e = Xorshift128p::new();
    let value = f64::from_bits(e.with_params_bits(55, Sign::Signed));
    assert_eq!(value, -0.007812500014551858);
}

#[test]
fn with_params_xoroshiro_known_value() {
    let mut e = Xoroshiro256pp::new();
    e.init(5);
    let value = f64::from_bits(e.with_params_bits(55, Sign::Signed));
    assert_eq!(value, -0.008299830861627796);
}

#[test]
fn with_params_unsigned_is_never_negative() {
    let mut e = Xoroshiro256pp::new_from_seed(&[3, 1, 4, 1]);
    for shift in [-100i8, 0, 53, 57, 61, 100] {
        let value = f64::from_bits(e.with_params_bits(shift, Sign::Unsigned));
        assert!(value > 0.0);
        assert!(value < 1.0);
    }
}

#[test]
fn with_params_magnitude_nonincreasing_in_shift() {
    // Magnitude is monotone across the whole i8 range, clamp included:
    // identically seeded engines draw the same word, so only the shift
    // differs between neighbours.
    let mut previous = f64::INFINITY;
    let mut shift: i8 = -128;
    loop {
        let mut e = Xorshift128p::new_from_seed(&[0xDEAD_BEEF, 0xF00D]);
        let value = f64::from_bits(e.with_params_bits(shift, Sign::Signed));
        assert!(value.abs() <= previous);
        previous = value.abs();
        if shift == 127 {
            break;
        }
        shift += 1;
    }
}

#[test]
fn with_params_raw_word_monotone() {
    for word in [0u64, 1, 12345, 0x8000_0000_0000_0000, u64::MAX] {
        let mut previous = f64::INFINITY;
        for shift in 53i8..=61 {
            let value = f64::from_bits(with_params_bits_f64(word, shift, Sign::Unsigned));
            assert!(value <= previous);
            previous = value;
        }
    }
}

#[test]
fn exponent_policy_string_seed_known_value() {
    let mut e = Xorshift128p::new_from_str("this should work well as a seed");
    e.init(1234);
    let value = f64::from_bits(e.exp_bits(0b100_0000_0001, Sign::Unsigned));
    assert_eq!(value, 4.920146994744552);
}

#[test]
fn exponent_policy_xoroshiro_known_value() {
    let mut e = Xoroshiro256pp::new_from_str("This might be a good seed.");
    e.init(1234);
    let value = f64::from_bits(e.exp_bits(0b100_0000_0001, Sign::Unsigned));
    assert_eq!(value, 7.168326901177531);
}

#[test]
fn exponent_policy_masks_high_bits() {
    // Bits of the exponent argument above the 11-bit field are ignored.
    let a = exponent_bits_f64(0x1234_5678_9ABC_DEF0, 0x0401, Sign::Unsigned);
    let b = exponent_bits_f64(0x1234_5678_9ABC_DEF0, 0xF401, Sign::Unsigned);
    assert_eq!(a, b);
    assert_eq!((a >> 52) & 0x7ff, 0x401);
}

#[test]
fn exponent_policy_sign_handling() {
    let negative_word = 0x8000_0000_0000_1234u64;
    let signed = exponent_bits_f64(negative_word, 0x401, Sign::Signed);
    let unsigned = exponent_bits_f64(negative_word, 0x401, Sign::Unsigned);
    assert!(f64::from_bits(signed) < 0.0);
    assert!(f64::from_bits(unsigned) > 0.0);
    assert_eq!(signed & 0xf_ffff_ffff_ffff, 0x1234);
    assert_eq!(unsigned & 0xf_ffff_ffff_ffff, 0x1234);
}

// The wild policy reinterprets the raw word unmasked, so the right state
// can produce every special double. Each seed below was solved so that one
// advance-and-combine lands exactly on the special pattern.

#[test]
fn wild_can_produce_nan() {
    let mut e =
        Xorshift128p::new_from_seed(&[0xE380_3F3F_0FC0_7DF0, 0x7FF8_0000_0000_0000]);
    assert!(f64::from_bits(e.wild_bits()).is_nan());
}

#[test]
fn wild_can_produce_positive_infinity() {
    let mut e =
        Xorshift128p::new_from_seed(&[0xC380_7F7F_1FC0_F9F0, 0x7FF0_0000_0000_0000]);
    assert_eq!(f64::from_bits(e.wild_bits()), f64::INFINITY);
}

#[test]
fn wild_can_produce_negative_infinity() {
    let mut e =
        Xorshift128p::new_from_seed(&[0xC700_7E7E_1F80_FBE0, 0xFFF0_0000_0000_0000]);
    assert_eq!(f64::from_bits(e.wild_bits()), f64::NEG_INFINITY);
}

#[test]
fn wild_can_produce_negative_zero() {
    let mut e =
        Xorshift128p::new_from_seed(&[0x0480_0101_0040_0210, 0x8000_0000_0000_0000]);
    let value = f64::from_bits(e.wild_bits());
    assert_eq!(value, 0.0);
    assert!(value.is_sign_negative());
}

#[test]
fn wild_lanes_carry_special_singles() {
    // High lane a quiet NaN, low lane negative zero.
    let (lo, hi) = u32_from_u64(0x7FC0_0000_8000_0000);
    assert_eq!(lo, 0x8000_0000);
    assert_eq!(hi, 0x7FC0_0000);
    let low = f32::from_bits(lo);
    assert_eq!(low, 0.0);
    assert!(low.is_sign_negative());
    assert!(f32::from_bits(hi).is_nan());
}

#[test]
fn signed_uniform_splits_sign_and_magnitude() {
    // Bit 10 of the word becomes the sign mask; the top 53 bits the draw.
    let (draw, sign) = signed_uniform_parts_f64(0x400);
    assert_eq!(draw, 0);
    assert_eq!(sign, 0x8000_0000_0000_0000);
    let value = f64::from_bits((draw as f64 * CANONICAL_SCALE_F64).to_bits() | sign);
    assert_eq!(value, 0.0);
    assert!(value.is_sign_negative());

    let (draw, sign) = signed_uniform_parts_f64(3 << 10);
    assert_eq!(draw, 1);
    assert_eq!(sign, 0x8000_0000_0000_0000);
    let value = f64::from_bits((draw as f64 * CANONICAL_SCALE_F64).to_bits() | sign);
    assert_eq!(value, -1.110223e-16);

    let (draw, sign) = signed_uniform_parts_f64(1 << 11);
    assert_eq!(draw, 1);
    assert_eq!(sign, 0);
}

#[test]
fn signed_uniform_lane_splits_sign_and_magnitude() {
    let (draw, sign) = signed_uniform_parts_f32(0x100);
    assert_eq!(draw, 0);
    assert_eq!(sign, 0x8000_0000);
    let (draw, sign) = signed_uniform_parts_f32(1 << 9);
    assert_eq!(draw, 1);
    assert_eq!(sign, 0);
    let value = f32::from_bits((draw as f32 * CANONICAL_SCALE_F32).to_bits() | sign);
    assert_eq!(value, 1.192093e-07);
}

// Tuple policies: the first draw of the default all-ones engine is the word
// 0xF8000000007FFFDF, lanes 0x007FFFDF (low) and 0xF8000000 (high).

#[test]
fn tuple_canonical_first_draw() {
    let mut e = Xorshift128p::new();
    let (lo, hi) = e.tuple_canonical_bits();
    assert_eq!(lo, 0x007F_FFDF >> 9);
    assert_eq!(hi, 0xF800_0000u32 >> 9);
    let low = lo as f32 * CANONICAL_SCALE_F32;
    let high = hi as f32 * CANONICAL_SCALE_F32;
    assert!((0.0..1.0).contains(&low));
    assert!((0.0..1.0).contains(&high));
}

#[test]
fn tuple_noncanonical_first_draw() {
    let mut e = Xorshift128p::new();
    let (lo, hi) = e.tuple_noncanonical_bits();
    assert_eq!(f32::from_bits(lo), 0.015624969266355038);
    assert_eq!(f32::from_bits(hi), 0.0078125);
}

#[test]
fn tuple_with_params_first_draw() {
    let mut e = Xorshift128p::new();
    let (lo, hi) = e.tuple_with_params_bits(26, Sign::Signed);
    assert_eq!(f32::from_bits(lo), 0.015624969266355038);
    assert_eq!(f32::from_bits(hi), -0.0078125);
}

#[test]
fn tuple_exp_first_draw() {
    let mut e = Xorshift128p::new();
    let (lo, hi) = e.tuple_exp_bits(0b1000_0001, Sign::Signed);
    assert_eq!(f32::from_bits(lo), 7.999984264373779);
    assert_eq!(f32::from_bits(hi), -4.0);
}

#[test]
fn tuple_wild_first_draw() {
    let mut e = Xorshift128p::new();
    let (lo, hi) = e.tuple_wild_bits();
    assert_eq!(lo, 0x007F_FFDF);
    assert_eq!(hi, 0xF800_0000);
}

#[test]
fn tuple_policies_on_xoroshiro() {
    let mut e = Xoroshiro256pp::new_from_seed(&[1, 2, 3, 4]);
    // First word is 0x3800067: lanes 0x03800067 (low) and 0 (high).
    let (lo, hi) = e.tuple_wild_bits();
    assert_eq!(lo, 0x0380_0067);
    assert_eq!(hi, 0);
    let mut e = Xoroshiro256pp::new_from_seed(&[1, 2, 3, 4]);
    let (lo, hi) = e.tuple_noncanonical_bits();
    assert!(f32::from_bits(lo) > 0.0 && f32::from_bits(lo) < 1.0);
    assert!(f32::from_bits(hi) > 0.0 && f32::from_bits(hi) < 1.0);
    // The all-zero high lane shapes to the policy's documented minimum.
    assert_eq!(f32::from_bits(hi), 0.0078125);
}

#[test]
fn canonical_free_function_matches_shift() {
    assert_eq!(canonical_bits_f64(u64::MAX), (1 << 53) - 1);
    assert_eq!(canonical_bits_f64(0x800), 1);
}

//! The shaping layer: stateless functions that turn a raw pseudorandom
//! 64-bit word (or one of its 32-bit lanes) into the bit pattern of an
//! IEEE-754 floating-point number under a chosen policy.
//!
//! Double-precision layout: bit 63 is the sign, bits 62..=52 the biased
//! exponent (11 bits), bits 51..=0 the mantissa (52 bits).
//! Single-precision layout: bit 31 is the sign, bits 30..=23 the biased
//! exponent (8 bits), bits 22..=0 the mantissa (23 bits).
//!
//! Each function returns the shaped integer pattern; reinterpreting it as
//! `f64`/`f32` is the caller's one remaining step.

use vstd::prelude::*;

verus! {

/// Selects whether a shaping policy leaves the sign bit pseudorandom
/// (`Signed`) or forces it to zero (`Unsigned`).
#[derive(Clone, Copy, PartialEq, Eq, Structural, Debug)]
pub enum Sign {
    Signed,
    Unsigned,
}

/// Sign bit of a double-precision pattern.
pub open spec fn sign_bit_f64(x: u64) -> u64 {
    x >> 63
}

/// Biased exponent field of a double-precision pattern.
pub open spec fn exp_field_f64(x: u64) -> u64 {
    (x >> 52) & 0x7ff
}

/// Mantissa field of a double-precision pattern.
pub open spec fn mantissa_f64(x: u64) -> u64 {
    x & 0xf_ffff_ffff_ffff
}

/// Sign bit of a single-precision pattern.
pub open spec fn sign_bit_f32(x: u32) -> u32 {
    x >> 31
}

/// Biased exponent field of a single-precision pattern.
pub open spec fn exp_field_f32(x: u32) -> u32 {
    (x >> 23) & 0xff
}

/// Mantissa field of a single-precision pattern.
pub open spec fn mantissa_f32(x: u32) -> u32 {
    x & 0x7f_ffff
}

/// The magnitude bits of a double-precision pattern: everything but the sign.
/// For patterns with equal signs, a larger magnitude pattern denotes a float
/// farther from zero.
pub open spec fn magnitude_f64(x: u64) -> u64 {
    x & 0x7fff_ffff_ffff_ffff
}

/// The magnitude bits of a single-precision pattern: everything but the sign.
pub open spec fn magnitude_f32(x: u32) -> u32 {
    x & 0x7fff_ffff
}

/// The parameterized double-precision policy saturates its shift to this range.
pub open spec fn clamped_shift_f64(left_shift: i8) -> i8 {
    if left_shift < 53 {
        53
    } else if left_shift > 61 {
        61
    } else {
        left_shift
    }
}

/// The parameterized single-precision policy saturates its shift to this range.
pub open spec fn clamped_shift_f32(left_shift: i8) -> i8 {
    if left_shift < 21 {
        21
    } else if left_shift > 29 {
        29
    } else {
        left_shift
    }
}

/// OR-mask of the parameterized double policy: all ones shifted left by
/// `ls + 2`, then logically shifted right by 2, so that exactly bits
/// `ls..=61` are set. Meaningful for `ls` in `53..=61`.
pub open spec fn set_mask_f64(ls: i8) -> u64 {
    (u64::MAX << ((ls + 2) as u32)) >> 2u32
}

/// OR-mask of the parameterized single policy: exactly bits `ls..=29` set.
/// Meaningful for `ls` in `21..=29`.
pub open spec fn set_mask_f32(ls: i8) -> u32 {
    (u32::MAX << ((ls + 2) as u32)) >> 2u32
}

/// AND-clear mask of the parameterized double policy: always clears bit 52
/// (keeps the exponent off its reserved all-ones pattern) and bit 62; also
/// clears the sign bit when the policy is unsigned.
pub open spec fn clear_mask_f64(sign: Sign) -> u64 {
    if sign is Signed {
        (1u64 << 62u32) | (1u64 << 52u32)
    } else {
        (3u64 << 62u32) | (1u64 << 52u32)
    }
}

/// AND-clear mask of the parameterized single policy: bit 23 and bit 30
/// always, plus the sign bit when unsigned.
pub open spec fn clear_mask_f32(sign: Sign) -> u32 {
    if sign is Signed {
        (1u32 << 30u32) | (1u32 << 23u32)
    } else {
        (3u32 << 30u32) | (1u32 << 23u32)
    }
}

/// The pattern produced by the parameterized double-precision policy.
pub open spec fn with_params_spec_f64(w: u64, left_shift: i8, sign: Sign) -> u64 {
    (w | set_mask_f64(clamped_shift_f64(left_shift))) & !clear_mask_f64(sign)
}

/// The pattern produced by the parameterized single-precision policy.
pub open spec fn with_params_spec_f32(x: u32, left_shift: i8, sign: Sign) -> u32 {
    (x | set_mask_f32(clamped_shift_f32(left_shift))) & !clear_mask_f32(sign)
}

/// The pattern produced by the explicit-exponent double-precision policy:
/// the mantissa comes from `w`, the exponent field is the low 11 bits of
/// `exponent`, and the sign bit stays pseudorandom exactly when `Signed`.
pub open spec fn exponent_spec_f64(w: u64, exponent: u16, sign: Sign) -> u64 {
    let cleared = if sign is Signed {
        w & !(0x7ffu64 << 52u32)
    } else {
        w & !(0xfffu64 << 52u32)
    };
    cleared | (((exponent & 0x7ff) as u64) << 52u32)
}

/// The pattern produced by the explicit-exponent single-precision policy.
pub open spec fn exponent_spec_f32(x: u32, exponent: u8, sign: Sign) -> u32 {
    let cleared = if sign is Signed {
        x & !(0xffu32 << 23u32)
    } else {
        x & !(0x1ffu32 << 23u32)
    };
    cleared | ((exponent as u32) << 23u32)
}

/// A canonical draw keeps the top 53 bits of the word as an integer;
/// scaling it by one part in 2^53 gives the conventional uniform draw in
/// the unit interval.
pub fn canonical_bits_f64(w: u64) -> (r: u64)
    ensures
        r == w >> 11u32,
        r < 0x20_0000_0000_0000u64,
{
    proof {
        assert(w >> 11u32 < 0x20_0000_0000_0000u64) by (bit_vector);
    }
    w >> 11
}

/// A canonical single-precision draw keeps the top 23 bits of the lane as
/// an integer; scaling it by one part in 2^23 gives the conventional
/// uniform draw in the unit interval.
pub fn canonical_bits_f32(x: u32) -> (r: u32)
    ensures
        r == x >> 9u32,
        r < 0x80_0000u32,
{
    proof {
        assert(x >> 9u32 < 0x80_0000u32) by (bit_vector);
    }
    x >> 9
}

/// The non-canonical double-precision policy: the parameterized policy at
/// shift 56, unsigned. The resulting pattern is always a positive normal
/// number below one: the sign bit is clear and the exponent field stays
/// within `0x3f0..=0x3fe`.
pub fn noncanonical_bits_f64(w: u64) -> (r: u64)
    ensures
        r == with_params_spec_f64(w, 56, Sign::Unsigned),
        sign_bit_f64(r) == 0,
        0x3f0 <= exp_field_f64(r) <= 0x3fe,
        mantissa_f64(r) == mantissa_f64(w),
{
    let r = with_params_bits_f64(w, 56, Sign::Unsigned);
    proof {
        assert(r == (w | ((u64::MAX << 58u32) >> 2u32)) & !((3u64 << 62u32) | (1u64 << 52u32)));
        assert(({
            let p = (w | ((u64::MAX << 58u32) >> 2u32)) & !((3u64 << 62u32) | (1u64 << 52u32));
            0x3f0 <= ((p >> 52u32) & 0x7ff) && ((p >> 52u32) & 0x7ff) <= 0x3fe
        })) by (bit_vector);
    }
    r
}

/// The non-canonical single-precision policy for one lane: the parameterized
/// policy at shift 26, unsigned. The pattern is a positive normal number
/// below one.
pub fn noncanonical_bits_f32(x: u32) -> (r: u32)
    ensures
        r == with_params_spec_f32(x, 26, Sign::Unsigned),
        sign_bit_f32(r) == 0,
        0x78 <= exp_field_f32(r) <= 0x7e,
        mantissa_f32(r) == mantissa_f32(x),
{
    let r = with_params_bits_f32(x, 26, Sign::Unsigned);
    proof {
        assert(r == (x | ((u32::MAX << 28u32) >> 2u32)) & !((3u32 << 30u32) | (1u32 << 23u32)));
        assert(({
            let p = (x | ((u32::MAX << 28u32) >> 2u32)) & !((3u32 << 30u32) | (1u32 << 23u32));
            0x78 <= ((p >> 23u32) & 0xff) && ((p >> 23u32) & 0xff) <= 0x7e
        })) by (bit_vector);
    }
    r
}

/// The parameterized double-precision policy: saturate `left_shift` into
/// `53..=61`, set bits `left_shift..=61`, clear bit 52 and bit 62, and clear
/// the sign bit when unsigned. A larger shift sets fewer exponent bits and
/// so pulls the value toward zero.
pub fn with_params_bits_f64(w: u64, left_shift: i8, sign: Sign) -> (r: u64)
    ensures
        r == with_params_spec_f64(w, left_shift, sign),
        mantissa_f64(r) == mantissa_f64(w),
        sign is Unsigned ==> sign_bit_f64(r) == 0,
        sign is Signed ==> sign_bit_f64(r) == sign_bit_f64(w),
        exp_field_f64(r) != 0 && exp_field_f64(r) <= 0x3fe,
{
    let ls: i8 = if left_shift < 53 {
        53
    } else if left_shift > 61 {
        61
    } else {
        left_shift
    };
    let set_mask: u64 = (u64::MAX << ((ls + 2) as u32)) >> 2u32;
    let clear_mask: u64 = match sign {
        Sign::Signed => (1u64 << 62u32) | (1u64 << 52u32),
        Sign::Unsigned => (3u64 << 62u32) | (1u64 << 52u32),
    };
    let r = (w | set_mask) & !clear_mask;
    proof {
        let lsg = ls as u32;
        lemma_with_params_fields_f64(w, lsg, clear_mask);
        assert(r == with_params_spec_f64(w, left_shift, sign));
    }
    r
}

/// The parameterized single-precision policy for one 32-bit lane: saturate
/// `left_shift` into `21..=29`, set bits `left_shift..=29`, clear bit 23 and
/// bit 30, and clear the sign bit when unsigned.
pub fn with_params_bits_f32(x: u32, left_shift: i8, sign: Sign) -> (r: u32)
    ensures
        r == with_params_spec_f32(x, left_shift, sign),
        clamped_shift_f32(left_shift) >= 23 ==> mantissa_f32(r) == mantissa_f32(x),
        sign is Unsigned ==> sign_bit_f32(r) == 0,
        sign is Signed ==> sign_bit_f32(r) == sign_bit_f32(x),
        exp_field_f32(r) != 0 && exp_field_f32(r) <= 0x7e,
{
    let ls: i8 = if left_shift < 21 {
        21
    } else if left_shift > 29 {
        29
    } else {
        left_shift
    };
    let set_mask: u32 = (u32::MAX << ((ls + 2) as u32)) >> 2u32;
    let clear_mask: u32 = match sign {
        Sign::Signed => (1u32 << 30u32) | (1u32 << 23u32),
        Sign::Unsigned => (3u32 << 30u32) | (1u32 << 23u32),
    };
    let r = (x | set_mask) & !clear_mask;
    proof {
        let lsg = ls as u32;
        lemma_with_params_fields_f32(x, lsg, clear_mask);
        assert(r == with_params_spec_f32(x, left_shift, sign));
    }
    r
}

/// Field behaviour of the parameterized double policy, for a clamped shift.
proof fn lemma_with_params_fields_f64(w: u64, ls: u32, clear_mask: u64)
    requires
        53 <= ls <= 61,
        clear_mask == (1u64 << 62u32) | (1u64 << 52u32) || clear_mask == (3u64 << 62u32) | (1u64
            << 52u32),
    ensures
        ({
            let r = (w | ((u64::MAX << ((ls + 2) as u32)) >> 2u32)) & !clear_mask;
            &&& mantissa_f64(r) == mantissa_f64(w)
            &&& clear_mask == (3u64 << 62u32) | (1u64 << 52u32) ==> sign_bit_f64(r) == 0
            &&& clear_mask == (1u64 << 62u32) | (1u64 << 52u32) ==> sign_bit_f64(r) == sign_bit_f64(
                w,
            )
            &&& exp_field_f64(r) != 0
            &&& exp_field_f64(r) <= 0x3fe
        }),
{
    assert(({
        let r = (w | ((u64::MAX << ((ls + 2) as u32)) >> 2u32)) & !clear_mask;
        &&& (r & 0xf_ffff_ffff_ffff) == (w & 0xf_ffff_ffff_ffff)
        &&& clear_mask == (3u64 << 62u32) | (1u64 << 52u32) ==> (r >> 63u32) == 0
        &&& clear_mask == (1u64 << 62u32) | (1u64 << 52u32) ==> (r >> 63u32) == (w >> 63u32)
        &&& ((r >> 52u32) & 0x7ff) != 0
        &&& ((r >> 52u32) & 0x7ff) <= 0x3fe
    })) by (bit_vector)
        requires
            53 <= ls <= 61,
            clear_mask == (1u64 << 62u32) | (1u64 << 52u32) || clear_mask == (3u64 << 62u32) | (
            1u64 << 52u32),
    ;
}

/// Field behaviour of the parameterized single policy, for a clamped shift.
proof fn lemma_with_params_fields_f32(x: u32, ls: u32, clear_mask: u32)
    requires
        21 <= ls <= 29,
        clear_mask == (1u32 << 30u32) | (1u32 << 23u32) || clear_mask == (3u32 << 30u32) | (1u32
            << 23u32),
    ensures
        ({
            let r = (x | ((u32::MAX << ((ls + 2) as u32)) >> 2u32)) & !clear_mask;
            &&& ls >= 23 ==> mantissa_f32(r) == mantissa_f32(x)
            &&& clear_mask == (3u32 << 30u32) | (1u32 << 23u32) ==> sign_bit_f32(r) == 0
            &&& clear_mask == (1u32 << 30u32) | (1u32 << 23u32) ==> sign_bit_f32(r) == sign_bit_f32(
                x,
            )
            &&& exp_field_f32(r) != 0
            &&& exp_field_f32(r) <= 0x7e
        }),
{
    assert(({
        let r = (x | ((u32::MAX << ((ls + 2) as u32)) >> 2u32)) & !clear_mask;
        &&& ls >= 23 ==> (r & 0x7f_ffff) == (x & 0x7f_ffff)
        &&& clear_mask == (3u32 << 30u32) | (1u32 << 23u32) ==> (r >> 31u32) == 0
        &&& clear_mask == (1u32 << 30u32) | (1u32 << 23u32) ==> (r >> 31u32) == (x >> 31u32)
        &&& ((r >> 23u32) & 0xff) != 0
        &&& ((r >> 23u32) & 0xff) <= 0x7e
    })) by (bit_vector)
        requires
            21 <= ls <= 29,
            clear_mask == (1u32 << 30u32) | (1u32 << 23u32) || clear_mask == (3u32 << 30u32) | (
            1u32 << 23u32),
    ;
}

/// The explicit-exponent double-precision policy: keep the mantissa of `w`,
/// install the low 11 bits of `exponent` as the exponent field, keep the
/// pseudorandom sign bit exactly when `Signed`.
pub fn exponent_bits_f64(w: u64, exponent: u16, sign: Sign) -> (r: u64)
    ensures
        r == exponent_spec_f64(w, exponent, sign),
        mantissa_f64(r) == mantissa_f64(w),
        exp_field_f64(r) == (exponent & 0x7ff) as u64,
        exponent < 0x800 ==> exp_field_f64(r) == exponent as u64,
        sign is Unsigned ==> sign_bit_f64(r) == 0,
        sign is Signed ==> sign_bit_f64(r) == sign_bit_f64(w),
{
    let exp: u64 = (exponent & 0x7ff) as u64;
    let cleared: u64 = match sign {
        Sign::Signed => w & !(0x7ffu64 << 52u32),
        Sign::Unsigned => w & !(0xfffu64 << 52u32),
    };
    let r = cleared | (exp << 52u32);
    proof {
        assert(exponent < 0x800 ==> (exponent & 0x7ff) == exponent) by (bit_vector);
        assert(({
            let rs = (w & !(0x7ffu64 << 52u32)) | (((exponent & 0x7ff) as u64) << 52u32);
            &&& (rs & 0xf_ffff_ffff_ffff) == (w & 0xf_ffff_ffff_ffff)
            &&& ((rs >> 52u32) & 0x7ff) == (exponent & 0x7ff) as u64
            &&& (rs >> 63u32) == (w >> 63u32)
        })) by (bit_vector);
        assert(({
            let ru = (w & !(0xfffu64 << 52u32)) | (((exponent & 0x7ff) as u64) << 52u32);
            &&& (ru & 0xf_ffff_ffff_ffff) == (w & 0xf_ffff_ffff_ffff)
            &&& ((ru >> 52u32) & 0x7ff) == (exponent & 0x7ff) as u64
            &&& (ru >> 63u32) == 0
        })) by (bit_vector);
    }
    r
}

/// The explicit-exponent single-precision policy for one lane.
pub fn exponent_bits_f32(x: u32, exponent: u8, sign: Sign) -> (r: u32)
    ensures
        r == exponent_spec_f32(x, exponent, sign),
        mantissa_f32(r) == mantissa_f32(x),
        exp_field_f32(r) == exponent as u32,
        sign is Unsigned ==> sign_bit_f32(r) == 0,
        sign is Signed ==> sign_bit_f32(r) == sign_bit_f32(x),
{
    let exp: u32 = exponent as u32;
    let cleared: u32 = match sign {
        Sign::Signed => x & !(0xffu32 << 23u32),
        Sign::Unsigned => x & !(0x1ffu32 << 23u32),
    };
    let r = cleared | (exp << 23u32);
    proof {
        assert(({
            let rs = (x & !(0xffu32 << 23u32)) | ((exponent as u32) << 23u32);
            &&& (rs & 0x7f_ffff) == (x & 0x7f_ffff)
            &&& ((rs >> 23u32) & 0xff) == exponent as u32
            &&& (rs >> 31u32) == (x >> 31u32)
        })) by (bit_vector);
        assert(({
            let ru = (x & !(0x1ffu32 << 23u32)) | ((exponent as u32) << 23u32);
            &&& (ru & 0x7f_ffff) == (x & 0x7f_ffff)
            &&& ((ru >> 23u32) & 0xff) == exponent as u32
            &&& (ru >> 31u32) == 0
        })) by (bit_vector);
    }
    r
}

/// The signed-uniform double-precision policy splits a word into the 53-bit
/// integer that the canonical policy scales into the unit interval and a
/// separate sign-bit mask taken from bit 10 of the word, to be OR-ed into
/// bit 63 of the scaled result's pattern.
pub fn signed_uniform_parts_f64(w: u64) -> (r: (u64, u64))
    ensures
        r.0 == w >> 11u32,
        r.0 < 0x20_0000_0000_0000u64,
        r.1 == (w >> 10u32) << 63u32,
        r.1 == 0 || r.1 == 0x8000_0000_0000_0000u64,
{
    proof {
        assert(w >> 11u32 < 0x20_0000_0000_0000u64) by (bit_vector);
        assert((w >> 10u32) << 63u32 == 0 || (w >> 10u32) << 63u32 == 0x8000_0000_0000_0000u64)
            by (bit_vector);
    }
    (w >> 11, (w >> 10) << 63)
}

/// The signed single-precision policy for one lane: the 23-bit integer that
/// is scaled into the unit interval, and a sign-bit mask taken from bit 8 of
/// the lane, to be OR-ed into bit 31 of the scaled result's pattern.
pub fn signed_uniform_parts_f32(x: u32) -> (r: (u32, u32))
    ensures
        r.0 == x >> 9u32,
        r.0 < 0x80_0000u32,
        r.1 == (x >> 8u32) << 31u32,
        r.1 == 0 || r.1 == 0x8000_0000u32,
{
    proof {
        assert(x >> 9u32 < 0x80_0000u32) by (bit_vector);
        assert((x >> 8u32) << 31u32 == 0 || (x >> 8u32) << 31u32 == 0x8000_0000u32) by (bit_vector);
    }
    (x >> 9, (x >> 8) << 31)
}

/// Splits a raw word into its low and high 32-bit lanes, in that order.
pub fn u32_from_u64(bits: u64) -> (r: (u32, u32))
    ensures
        r.0 == bits as u32,
        r.1 == (bits >> 32u32) as u32,
{
    proof {
        assert(((bits << 32u32) >> 32u32) as u32 == bits as u32) by (bit_vector);
    }
    (((bits << 32) >> 32) as u32, (bits >> 32) as u32)
}

/// Under either sign policy and any two shift parameters, a larger shift
/// never enlarges the magnitude bits of the parameterized double-precision
/// pattern built from the same word. Since the two patterns carry the same
/// sign bit, the one with the larger shift is never farther from zero.
pub proof fn lemma_with_params_monotonic_f64(w: u64, ls1: i8, ls2: i8, sign: Sign)
    requires
        ls1 <= ls2,
    ensures
        magnitude_f64(with_params_spec_f64(w, ls2, sign)) <= magnitude_f64(
            with_params_spec_f64(w, ls1, sign),
        ),
{
    let a = clamped_shift_f64(ls1) as u32;
    let b = clamped_shift_f64(ls2) as u32;
    let clear = clear_mask_f64(sign);
    assert(53 <= a && a <= b && b <= 61);
    assert((((w | ((u64::MAX << ((b + 2) as u32)) >> 2u32)) & !clear) & 0x7fff_ffff_ffff_ffff) <= (
    ((w | ((u64::MAX << ((a + 2) as u32)) >> 2u32)) & !clear) & 0x7fff_ffff_ffff_ffff))
        by (bit_vector)
        requires
            53 <= a && a <= b && b <= 61,
    ;
}

/// The single-precision analogue: a larger shift never enlarges the
/// magnitude bits of the parameterized pattern built from the same lane.
pub proof fn lemma_with_params_monotonic_f32(x: u32, ls1: i8, ls2: i8, sign: Sign)
    requires
        ls1 <= ls2,
    ensures
        magnitude_f32(with_params_spec_f32(x, ls2, sign)) <= magnitude_f32(
            with_params_spec_f32(x, ls1, sign),
        ),
{
    let a = clamped_shift_f32(ls1) as u32;
    let b = clamped_shift_f32(ls2) as u32;
    let clear = clear_mask_f32(sign);
    assert(21 <= a && a <= b && b <= 29);
    assert((((x | ((u32::MAX << ((b + 2) as u32)) >> 2u32)) & !clear) & 0x7fff_ffff) <= (((x | ((
    u32::MAX << ((a + 2) as u32)) >> 2u32)) & !clear) & 0x7fff_ffff)) by (bit_vector)
        requires
            21 <= a && a <= b && b <= 29,
    ;
}

} // verus!

//! Analytic helpers that report, as bit patterns, the numeric envelope of
//! the shaping policies: the unsigned bounds representable for a given
//! exponent field, and the exact pattern the parameterized policy produces
//! for a given word and shift. Unlike the engine-attached methods, which
//! saturate an out-of-range shift, these helpers report it as an explicit
//! absence.

use vstd::prelude::*;
use crate::float::{
    exp_field_f32,
    exp_field_f64,
    mantissa_f32,
    mantissa_f64,
    sign_bit_f32,
    sign_bit_f64,
    with_params_spec_f32,
    with_params_spec_f64,
    Sign,
};

verus! {

/// The unsigned double-precision pattern with the given exponent field and
/// an all-zero mantissa: the smallest magnitude the exponent can carry.
pub open spec fn exp_lower_bits_f64(exponent: u16) -> u64 {
    ((exponent & 0x7ff) as u64) << 52u32
}

/// The unsigned double-precision pattern with the given exponent field and
/// an all-one mantissa: the largest magnitude the exponent can carry.
pub open spec fn exp_upper_bits_f64(exponent: u16) -> u64 {
    exp_lower_bits_f64(exponent) | 0xf_ffff_ffff_ffff
}

/// The unsigned single-precision pattern with the given exponent field and
/// an all-zero mantissa.
pub open spec fn exp_lower_bits_f32(exponent: u8) -> u32 {
    (exponent as u32) << 23u32
}

/// The unsigned single-precision pattern with the given exponent field and
/// an all-one mantissa.
pub open spec fn exp_upper_bits_f32(exponent: u8) -> u32 {
    exp_lower_bits_f32(exponent) | 0x7f_ffff
}

/// Unsigned lower and upper bound patterns of a given double-precision
/// exponent; only the low 11 bits of `exponent` are read.
pub fn exponent_bounds_bits_f64(exponent: u16) -> (r: (u64, u64))
    ensures
        r.0 == exp_lower_bits_f64(exponent),
        r.1 == exp_upper_bits_f64(exponent),
        sign_bit_f64(r.0) == 0 && sign_bit_f64(r.1) == 0,
        exp_field_f64(r.0) == (exponent & 0x7ff) as u64,
        exp_field_f64(r.1) == (exponent & 0x7ff) as u64,
        exponent < 0x800 ==> exp_field_f64(r.0) == exponent as u64,
        mantissa_f64(r.0) == 0 && mantissa_f64(r.1) == 0xf_ffff_ffff_ffff,
{
    let exp: u64 = (exponent & 0x7ff) as u64;
    let lower = exp << 52u32;
    let upper = !((1u64 << 63u32) | (2047u64 << 52u32)) | (exp << 52u32);
    proof {
        lemma_exp_bounds_fields_f64(exponent);
        assert(exponent < 0x800 ==> (exponent & 0x7ff) == exponent) by (bit_vector);
        assert(!((1u64 << 63u32) | (2047u64 << 52u32)) | (((exponent & 0x7ff) as u64) << 52u32) == (
        ((exponent & 0x7ff) as u64) << 52u32) | 0xf_ffff_ffff_ffff) by (bit_vector);
    }
    (lower, upper)
}

/// Unsigned lower and upper bound patterns of a given single-precision
/// exponent.
pub fn exponent_bounds_bits_f32(exponent: u8) -> (r: (u32, u32))
    ensures
        r.0 == exp_lower_bits_f32(exponent),
        r.1 == exp_upper_bits_f32(exponent),
        sign_bit_f32(r.0) == 0 && sign_bit_f32(r.1) == 0,
        exp_field_f32(r.0) == exponent as u32,
        exp_field_f32(r.1) == exponent as u32,
        mantissa_f32(r.0) == 0 && mantissa_f32(r.1) == 0x7f_ffff,
{
    let exp: u32 = exponent as u32;
    let lower = exp << 23u32;
    let upper = !((1u32 << 31u32) | (255u32 << 23u32)) | (exp << 23u32);
    proof {
        lemma_exp_bounds_fields_f32(exponent);
        assert(!((1u32 << 31u32) | (255u32 << 23u32)) | ((exponent as u32) << 23u32) == ((exponent
            as u32) << 23u32) | 0x7f_ffff) by (bit_vector);
    }
    (lower, upper)
}

/// Extracting the exponent field back out of either bound pattern returns
/// exactly the low 11 bits of the exponent it was built from; both patterns
/// are unsigned, and their mantissas are all zeros and all ones.
pub proof fn lemma_exp_bounds_fields_f64(exponent: u16)
    ensures
        exp_field_f64(exp_lower_bits_f64(exponent)) == (exponent & 0x7ff) as u64,
        exp_field_f64(exp_upper_bits_f64(exponent)) == (exponent & 0x7ff) as u64,
        sign_bit_f64(exp_lower_bits_f64(exponent)) == 0,
        sign_bit_f64(exp_upper_bits_f64(exponent)) == 0,
        mantissa_f64(exp_lower_bits_f64(exponent)) == 0,
        mantissa_f64(exp_upper_bits_f64(exponent)) == 0xf_ffff_ffff_ffff,
{
    assert(({
        let lo = ((exponent & 0x7ff) as u64) << 52u32;
        let hi = lo | 0xf_ffff_ffff_ffff;
        &&& ((lo >> 52u32) & 0x7ff) == (exponent & 0x7ff) as u64
        &&& ((hi >> 52u32) & 0x7ff) == (exponent & 0x7ff) as u64
        &&& (lo >> 63u32) == 0
        &&& (hi >> 63u32) == 0
        &&& (lo & 0xf_ffff_ffff_ffff) == 0
        &&& (hi & 0xf_ffff_ffff_ffff) == 0xf_ffff_ffff_ffff
    })) by (bit_vector);
}

/// The single-precision analogue: either bound pattern hands the exponent
/// back unchanged, unsigned, with all-zero and all-one mantissas.
pub proof fn lemma_exp_bounds_fields_f32(exponent: u8)
    ensures
        exp_field_f32(exp_lower_bits_f32(exponent)) == exponent as u32,
        exp_field_f32(exp_upper_bits_f32(exponent)) == exponent as u32,
        sign_bit_f32(exp_lower_bits_f32(exponent)) == 0,
        sign_bit_f32(exp_upper_bits_f32(exponent)) == 0,
        mantissa_f32(exp_lower_bits_f32(exponent)) == 0,
        mantissa_f32(exp_upper_bits_f32(exponent)) == 0x7f_ffff,
{
    assert(({
        let lo = (exponent as u32) << 23u32;
        let hi = lo | 0x7f_ffff;
        &&& ((lo >> 23u32) & 0xff) == exponent as u32
        &&& ((hi >> 23u32) & 0xff) == exponent as u32
        &&& (lo >> 31u32) == 0
        &&& (hi >> 31u32) == 0
        &&& (lo & 0x7f_ffff) == 0
        &&& (hi & 0x7f_ffff) == 0x7f_ffff
    })) by (bit_vector);
}

/// The pattern the parameterized double policy would produce from word `x`
/// and an in-range shift, or nothing for an out-of-range shift. Where the
/// engine-attached method saturates, this helper reports the absence.
fn shift_unsigned_bits_f64(x: u64, left_shift: i8) -> (r: Option<u64>)
    ensures
        r is None <==> left_shift < 53 || left_shift > 61,
        r matches Some(v) ==> v == with_params_spec_f64(x, left_shift, Sign::Unsigned),
{
    if left_shift < 53 || left_shift > 61 {
        None
    } else {
        Some(
            (x | ((u64::MAX << ((left_shift + 2) as u32)) >> 2u32)) & !((3u64 << 62u32) | (1u64
                << 52u32)),
        )
    }
}

/// The single-precision analogue of `shift_unsigned_bits_f64`, over one
/// 32-bit lane and the shift range `21..=29`.
fn shift_unsigned_bits_f32(x: u32, left_shift: i8) -> (r: Option<u32>)
    ensures
        r is None <==> left_shift < 21 || left_shift > 29,
        r matches Some(v) ==> v == with_params_spec_f32(x, left_shift, Sign::Unsigned),
{
    if left_shift < 21 || left_shift > 29 {
        None
    } else {
        Some(
            (x | ((u32::MAX << ((left_shift + 2) as u32)) >> 2u32)) & !((3u32 << 30u32) | (1u32
                << 23u32)),
        )
    }
}

/// The smallest unsigned pattern the parameterized double policy can produce
/// for an in-range shift — the policy applied to the all-zero word — or
/// nothing for an out-of-range shift. The largest is always the double
/// closest to one.
pub fn params_min_bits_f64(left_shift: i8) -> (r: Option<u64>)
    ensures
        r is None <==> left_shift < 53 || left_shift > 61,
        r matches Some(v) ==> v == with_params_spec_f64(0, left_shift, Sign::Unsigned),
{
    shift_unsigned_bits_f64(0, left_shift)
}

/// The smallest unsigned pattern the parameterized single policy can produce
/// for an in-range shift, or nothing for an out-of-range shift.
pub fn params_min_bits_f32(left_shift: i8) -> (r: Option<u32>)
    ensures
        r is None <==> left_shift < 21 || left_shift > 29,
        r matches Some(v) ==> v == with_params_spec_f32(0, left_shift, Sign::Unsigned),
{
    shift_unsigned_bits_f32(0, left_shift)
}

/// Simulates the unsigned parameterized double policy on an explicit word,
/// reporting an out-of-range shift as an absence instead of saturating.
pub fn simulate_params_bits_f64(x: u64, left_shift: i8) -> (r: Option<u64>)
    ensures
        r is None <==> left_shift < 53 || left_shift > 61,
        r matches Some(v) ==> v == with_params_spec_f64(x, left_shift, Sign::Unsigned),
{
    shift_unsigned_bits_f64(x, left_shift)
}

/// Simulates the unsigned parameterized single policy on an explicit lane,
/// reporting an out-of-range shift as an absence instead of saturating.
pub fn simulate_params_bits_f32(x: u32, left_shift: i8) -> (r: Option<u32>)
    ensures
        r is None <==> left_shift < 21 || left_shift > 29,
        r matches Some(v) ==> v == with_params_spec_f32(x, left_shift, Sign::Unsigned),
{
    shift_unsigned_bits_f32(x, left_shift)
}

} // verus!

//! IEEE-754 single-precision values held as their bit patterns, the way
//! `f32::to_bits` gives them: the tests that the bindings make of them, and
//! the conversion to and from BF16.

use vstd::prelude::*;

verus! {

/// The value is finite: its exponent field is not all ones.
pub open spec fn f32_bits_finite(bits: u32) -> bool {
    (bits >> 23u32) & 0xffu32 != 0xffu32
}

/// The value is NaN: all-ones exponent and a non-zero fraction.
pub open spec fn f32_bits_nan(bits: u32) -> bool {
    (bits >> 23u32) & 0xffu32 == 0xffu32 && bits & 0x007f_ffffu32 != 0
}

/// The value compares below `0.0`: it is not NaN, its sign is set, and it is
/// not a zero.
pub open spec fn f32_bits_lt_zero(bits: u32) -> bool {
    !f32_bits_nan(bits) && bits >> 31u32 == 1 && bits & 0x7fff_ffffu32 != 0
}

/// The value compares above `0.0`: it is not NaN, its sign is clear, and it
/// is not zero.
pub open spec fn f32_bits_gt_zero(bits: u32) -> bool {
    !f32_bits_nan(bits) && bits >> 31u32 == 0 && bits != 0
}

/// The value compares above `1.0`: it is not NaN and, with its sign clear,
/// its bits order above those of `1.0` (positive values order as their bits
/// do).
pub open spec fn f32_bits_gt_one(bits: u32) -> bool {
    !f32_bits_nan(bits) && bits >> 31u32 == 0 && bits > 0x3f80_0000u32
}

/// Whether the value is finite.
pub fn is_finite_bits(bits: u32) -> (r: bool)
    ensures
        r == f32_bits_finite(bits),
{
    (bits >> 23u32) & 0xffu32 != 0xffu32
}

/// Whether the value compares below `0.0`.
pub fn lt_zero_bits(bits: u32) -> (r: bool)
    ensures
        r == f32_bits_lt_zero(bits),
{
    let nan = (bits >> 23u32) & 0xffu32 == 0xffu32 && bits & 0x007f_ffffu32 != 0;
    !nan && bits >> 31u32 == 1 && bits & 0x7fff_ffffu32 != 0
}

/// Whether the value compares above `0.0`.
pub fn gt_zero_bits(bits: u32) -> (r: bool)
    ensures
        r == f32_bits_gt_zero(bits),
{
    let nan = (bits >> 23u32) & 0xffu32 == 0xffu32 && bits & 0x007f_ffffu32 != 0;
    !nan && bits >> 31u32 == 0 && bits != 0
}

/// Whether the value compares above `1.0`.
pub fn gt_one_bits(bits: u32) -> (r: bool)
    ensures
        r == f32_bits_gt_one(bits),
{
    let nan = (bits >> 23u32) & 0xffu32 == 0xffu32 && bits & 0x007f_ffffu32 != 0;
    !nan && bits >> 31u32 == 0 && bits > 0x3f80_0000u32
}

/// The BF16 bits of a value: its upper half, rounded to nearest with ties to
/// even on the lower half. (No finite or infinite value wraps: the largest
/// finite magnitudes round up to an infinity, whose lower half is zero.)
pub open spec fn spec_bf16_round(bits: u32) -> u16 {
    let high = bits >> 16u32;
    let low = bits & 0xffffu32;
    let up = low > 0x8000u32 || (low == 0x8000u32 && high & 1u32 == 1u32);
    (if up {
        (high + 1) % 0x10000
    } else {
        high as int
    }) as u16
}

/// The BF16 NaN of an `f32` NaN: its upper half, kept as it is (sign and
/// leading payload), with the quiet bit set only where the upper half alone
/// would read as an infinity (its payload lies wholly in the lower half).
pub open spec fn spec_bf16_nan(bits: u32) -> u16 {
    let high = (bits >> 16u32) as u16;
    if high & 0x007fu16 == 0 {
        high | 0x0040u16
    } else {
        high
    }
}

/// The BF16 value is NaN: all-ones exponent and a non-zero fraction.
pub open spec fn bf16_bits_nan(bits: u16) -> bool {
    bits & 0x7f80u16 == 0x7f80u16 && bits & 0x007fu16 != 0
}

/// The BF16 conversion of a value: a NaN stays a NaN, any other value is
/// rounded to nearest even.
pub open spec fn spec_f32_to_bf16(bits: u32) -> u16 {
    if f32_bits_nan(bits) {
        spec_bf16_nan(bits)
    } else {
        spec_bf16_round(bits)
    }
}

/// Converts an `f32`, given as its bits, to BF16 bits: a NaN stays a NaN
/// (its upper half, made a NaN where it would read as an infinity), every
/// other value is rounded to nearest with ties to even.
pub fn f32_to_bf16_bits(value: u32) -> (r: u16)
    ensures
        r == spec_f32_to_bf16(value),
        f32_bits_nan(value) ==> r == spec_bf16_nan(value) && bf16_bits_nan(r),
        !f32_bits_nan(value) ==> r == spec_bf16_round(value),
{
    if (value >> 23u32) & 0xffu32 == 0xffu32 && value & 0x007f_ffffu32 != 0 {
        let high = #[verifier::truncate] ((value >> 16u32) as u16);
        let r = if high & 0x007fu16 == 0 { high | 0x0040u16 } else { high };
        assert(r & 0x7f80u16 == 0x7f80u16 && r & 0x007fu16 != 0) by (bit_vector)
            requires
                (value >> 23u32) & 0xffu32 == 0xffu32,
                high == (value >> 16u32) as u16,
                r == if high & 0x007fu16 == 0 { high | 0x0040u16 } else { high },
        ;
        return r;
    }
    assert((value >> 16u32) & 1u32 <= 1u32) by (bit_vector);
    let rounding_bias: u32 = 0x7fffu32 + ((value >> 16u32) & 1u32);
    let sum: u64 = value as u64 + rounding_bias as u64;
    let r = #[verifier::truncate] ((sum >> 16u64) as u16);
    assert(r == spec_bf16_round(value)) by (bit_vector)
        requires
            rounding_bias == 0x7fffu32 + ((value >> 16u32) & 1u32),
            sum == value as u64 + rounding_bias as u64,
            r == (sum >> 16u64) as u16,
    ;
    r
}

/// The `f32` bits of a BF16 value: its bits in the upper half.
pub fn bf16_bits_to_f32(value: u16) -> (r: u32)
    ensures
        r == (value as u32) << 16u32,
        r >> 16u32 == value as u32,
        r & 0xffffu32 == 0,
{
    let r = (value as u32) << 16u32;
    assert(r >> 16u32 == value as u32 && r & 0xffffu32 == 0) by (bit_vector)
        requires
            r == (value as u32) << 16u32,
    ;
    r
}

/// Widening any BF16 value to `f32` and converting back gives the same BF16
/// bits, NaN patterns included.
pub proof fn lemma_bf16_roundtrip(value: u16)
    ensures
        spec_f32_to_bf16((value as u32) << 16u32) == value,
{
    assert(f32_bits_nan((value as u32) << 16u32) == bf16_bits_nan(value)) by (bit_vector);
    assert(spec_bf16_round((value as u32) << 16u32) == value) by (bit_vector);
    assert(bf16_bits_nan(value) ==> ((((value as u32) << 16u32) >> 16u32) as u16) == value && value & 0x007fu16 != 0)
        by (bit_vector);
}

} // verus!

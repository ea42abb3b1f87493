//! Extraction of a range of bits from a 32-bit register value.

use vstd::prelude::*;
use vstd::arithmetic::power2::pow2;
use vstd::arithmetic::power2::lemma_pow2_pos;
use vstd::arithmetic::power2::lemma2_to64;
use vstd::bits::low_bits_mask;
use vstd::bits::lemma_u32_low_bits_mask_is_mod;
use vstd::bits::lemma_u32_shr_is_div;
use std::ops::Range;

verus! {

/// The bits `start..end` of `value`, right-aligned, over the mathematical
/// integers: `value` divided by two to the `start`, modulo two to the width.
pub open spec fn bit_field(value: nat, start: nat, end: nat) -> nat
    recommends
        start < end,
{
    (value / pow2(start)) % pow2((end - start) as nat)
}

/// A bit field of a 32-bit value is below two to its width, and is the
/// whole shifted value where the range ends at bit 32.
pub proof fn lemma_bit_field_bound(value: u32, start: nat, end: nat)
    requires
        start < end <= 32,
    ensures
        bit_field(value as nat, start, end) < pow2((end - start) as nat),
        bit_field(value as nat, start, end) <= u32::MAX,
        end == 32 ==> bit_field(value as nat, start, end) == value as nat / pow2(start),
{
    let width = (end - start) as nat;
    lemma_pow2_pos(start);
    lemma_pow2_pos(width);
    let shifted = value as nat / pow2(start);
    assert(shifted <= value) by {
        vstd::arithmetic::div_mod::lemma_div_is_ordered_by_denominator(value as int, 1, pow2(start) as int);
    }
    assert(shifted % pow2(width) <= shifted) by {
        vstd::arithmetic::div_mod::lemma_mod_decreases(shifted, pow2(width));
    }
    assert(shifted % pow2(width) < pow2(width)) by {
        vstd::arithmetic::div_mod::lemma_mod_bound(shifted as int, pow2(width) as int);
    }
    if end == 32 {
        // shifted < 2^(32 - start), so the modulus leaves it unchanged
        assert(shifted < pow2(width)) by {
            lemma2_to64();
            vstd::arithmetic::power2::lemma_pow2_adds(start, width);
            assert(pow2(start) * pow2(width) == 0x1_0000_0000);
            vstd::arithmetic::div_mod::lemma_div_by_multiple_is_strongly_ordered(
                value as int,
                0x1_0000_0000int,
                pow2(width) as int,
                pow2(start) as int,
            );
            vstd::arithmetic::div_mod::lemma_div_by_multiple(pow2(width) as int, pow2(start) as int);
        }
        vstd::arithmetic::div_mod::lemma_small_mod(shifted, pow2(width));
    }
}

/// The bits `start..end` of `value` by shifting and masking, in 64 bits so
/// that a mask of all 32 bits is formed without overflow.
pub open spec fn shifted_and_masked(value: u32, start: u8, end: u8) -> u64
    recommends
        start < end <= 32,
{
    ((value as u64) >> (start as u64)) & (((1u64 << ((end - start) as u64)) - 1) as u64)
}

/// A bit field is the value shifted right by `start` and masked to the low
/// `end - start` bits, for every valid range, the full width included.
pub proof fn lemma_bit_field_is_shift_and_mask(value: u32, start: u8, end: u8)
    requires
        start < end <= 32,
    ensures
        bit_field(value as nat, start as nat, end as nat) == shifted_and_masked(value, start, end),
{
    let width = (end - start) as nat;
    let shifted = (value as u64) >> (start as u64);
    vstd::bits::lemma_u64_shr_is_div(value as u64, start as u64);
    vstd::bits::lemma_u64_pow2_no_overflow(width);
    vstd::bits::lemma_u64_shl_is_mul(1u64, width as u64);
    vstd::bits::lemma_u64_low_bits_mask_is_mod(shifted, width);
}

/// An eight-bit field fits in a byte.
pub proof fn lemma_bit_field_is_byte(value: u32, start: nat)
    requires
        start + 8 <= 32,
    ensures
        bit_field(value as nat, start, start + 8) <= u8::MAX,
{
    lemma_bit_field_bound(value, start, start + 8);
    lemma2_to64();
}

/// Extracts the bits `bits.start..bits.end` of `v`, right-aligned. The range
/// of all 32 bits gives `v` itself.
pub fn extract_bits(v: u32, bits: Range<u8>) -> (r: u32)
    requires
        bits.start < bits.end <= 32,
    ensures
        r == bit_field(v as nat, bits.start as nat, bits.end as nat),
        r == shifted_and_masked(v, bits.start, bits.end),
        bits.start == 0 && bits.end == 32 ==> r == v,
{
    let num_bits: u8 = bits.end - bits.start;
    let shifted: u32 = v >> bits.start;
    proof {
        lemma_u32_shr_is_div(v, bits.start as u32);
        lemma_bit_field_bound(v, bits.start as nat, bits.end as nat);
        lemma_bit_field_is_shift_and_mask(v, bits.start, bits.end);
    }
    if num_bits == 32 {
        proof {
            assert(pow2(0) == 1) by { lemma2_to64(); }
        }
        shifted
    } else {
        proof {
            lemma_mask_is_low_bits(num_bits);
            lemma_u32_low_bits_mask_is_mod(shifted, num_bits as nat);
        }
        let mask: u32 = (1u32 << num_bits) - 1;
        shifted & mask
    }
}

/// For a width below 32, `(1 << width) - 1` does not overflow and is the
/// mask of the low `width` bits.
proof fn lemma_mask_is_low_bits(width: u8)
    requires
        width < 32,
    ensures
        1u32 << width >= 1,
        ((1u32 << width) - 1) as u32 == low_bits_mask(width as nat),
        low_bits_mask(width as nat) == pow2(width as nat) - 1,
        pow2(width as nat) <= u32::MAX,
{
    assert(1u32 << width >= 1) by (bit_vector)
        requires
            width < 32,
    ;
    vstd::bits::lemma_u32_pow2_no_overflow(width as nat);
    vstd::bits::lemma_u32_shl_is_mul(1u32, width as u32);
}

} // verus!

//! Cache decoding for AMD processors: two leaves with fixed register layouts.

use vstd::prelude::*;
use vstd::arithmetic::power2::lemma2_to64;
use crate::bits::bit_field;
use crate::bits::extract_bits;
use crate::bits::lemma_bit_field_bound;
use crate::cache::CacheHierarchy;
use crate::cache::PhysicalDeviceCacheProperties;
use crate::cpuid::QueryAnswer;
use crate::cpuid::RawQueryResult;

verus! {

/// Leaf that holds the L1 caches of an AMD processor.
pub const AMD_L1_LEAF: u32 = 0x8000_0005;

/// Leaf that holds the L2 and L3 caches of an AMD processor.
pub const AMD_L2_L3_LEAF: u32 = 0x8000_0006;

/// An L1 cache as an AMD register packs it: the size in KiB in bits 24..32,
/// the line size in bits 0..8.
pub open spec fn amd_l1_cache(register: u32) -> PhysicalDeviceCacheProperties {
    PhysicalDeviceCacheProperties {
        size: (bit_field(register as nat, 24, 32) * 1024) as u32,
        line_size: bit_field(register as nat, 0, 8) as u32,
    }
}

/// The L2 cache as an AMD register packs it: the size in KiB in bits 16..32,
/// the line size in bits 0..8.
pub open spec fn amd_l2_cache(register: u32) -> PhysicalDeviceCacheProperties {
    PhysicalDeviceCacheProperties {
        size: (bit_field(register as nat, 16, 32) * 1024) as u32,
        line_size: bit_field(register as nat, 0, 8) as u32,
    }
}

/// The size in bytes that an AMD register gives for the L3 cache: bits
/// 18..32 count units of 512 KiB.
pub open spec fn amd_l3_size(register: u32) -> nat {
    bit_field(register as nat, 18, 32) * 512 * 1024
}

/// The L3 cache as an AMD register packs it, with the line size in bits
/// 0..8. A size that 32 bits cannot hold is reported as no information.
pub open spec fn amd_l3_cache(register: u32) -> PhysicalDeviceCacheProperties {
    if amd_l3_size(register) <= u32::MAX {
        PhysicalDeviceCacheProperties {
            size: amd_l3_size(register) as u32,
            line_size: bit_field(register as nat, 0, 8) as u32,
        }
    } else {
        PhysicalDeviceCacheProperties::unavailable()
    }
}

/// The caches of an AMD processor, from the results of its two cache leaves.
pub open spec fn amd_caches(l1: RawQueryResult, l2_l3: RawQueryResult) -> CacheHierarchy {
    CacheHierarchy {
        l1_data: amd_l1_cache(l1.ecx),
        l1_instruction: amd_l1_cache(l1.edx),
        l2: amd_l2_cache(l2_l3.ecx),
        l3: amd_l3_cache(l2_l3.edx),
    }
}

/// Decodes an L1 cache from the register that describes it.
fn decode_amd_l1(register: u32) -> (cache: PhysicalDeviceCacheProperties)
    ensures
        cache == amd_l1_cache(register),
{
    proof {
        lemma_bit_field_bound(register, 24, 32);
        lemma2_to64();
    }
    PhysicalDeviceCacheProperties {
        size: extract_bits(register, 24..32) * 1024,
        line_size: extract_bits(register, 0..8),
    }
}

/// Decodes the L2 cache from the register that describes it.
fn decode_amd_l2(register: u32) -> (cache: PhysicalDeviceCacheProperties)
    ensures
        cache == amd_l2_cache(register),
{
    proof {
        lemma_bit_field_bound(register, 16, 32);
        lemma2_to64();
    }
    PhysicalDeviceCacheProperties {
        size: extract_bits(register, 16..32) * 1024,
        line_size: extract_bits(register, 0..8),
    }
}

/// Decodes the L3 cache from the register that describes it.
fn decode_amd_l3(register: u32) -> (cache: PhysicalDeviceCacheProperties)
    ensures
        cache == amd_l3_cache(register),
{
    proof {
        lemma_bit_field_bound(register, 18, 32);
        lemma2_to64();
    }
    let units: u32 = extract_bits(register, 18..32);
    if units <= u32::MAX / (512 * 1024) {
        PhysicalDeviceCacheProperties {
            size: units * 512 * 1024,
            line_size: extract_bits(register, 0..8),
        }
    } else {
        PhysicalDeviceCacheProperties { size: 0, line_size: 0 }
    }
}

/// Decodes the four caches of an AMD processor from the answers to leaf
/// `AMD_L1_LEAF` and to leaf `AMD_L2_L3_LEAF`.
pub fn decode_amd_caches(l1: &QueryAnswer, l2_l3: &QueryAnswer) -> (caches: CacheHierarchy)
    requires
        l1.leaf == AMD_L1_LEAF,
        l2_l3.leaf == AMD_L2_L3_LEAF,
    ensures
        caches == amd_caches(l1.registers, l2_l3.registers),
{
    CacheHierarchy {
        l1_data: decode_amd_l1(l1.registers.ecx),
        l1_instruction: decode_amd_l1(l1.registers.edx),
        l2: decode_amd_l2(l2_l3.registers.ecx),
        l3: decode_amd_l3(l2_l3.registers.edx),
    }
}

} // verus!

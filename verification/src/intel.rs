//! Cache decoding for Intel processors: a walk over the sub-leaves of the
//! cache leaf, each describing one cache, up to a terminating entry.

use vstd::prelude::*;
use vstd::arithmetic::power2::lemma2_to64;
use crate::bits::bit_field;
use crate::bits::extract_bits;
use crate::bits::lemma_bit_field_bound;
use crate::cache::CacheHierarchy;
use crate::cache::CacheSlot;
use crate::cache::PhysicalDeviceCacheProperties;
use crate::cpuid::query_sub;
use crate::cpuid::registers_of;
use crate::cpuid::QueryAnswer;
use crate::cpuid::RawQueryResult;

verus! {

/// Leaf whose sub-leaves enumerate the caches of an Intel processor.
pub const INTEL_CACHE_LEAF: u32 = 4;

/// The most sub-leaves that discovery reads. A processor that has not ended
/// its enumeration by then is taken to give no cache information.
pub const MAX_CACHE_ENTRIES: u32 = 64;

/// The cache type code of an entry: bits 0..5 of `eax`.
pub open spec fn cache_type(entry: RawQueryResult) -> nat {
    bit_field(entry.eax as nat, 0, 5)
}

/// The cache level of an entry: bits 5..8 of `eax`.
pub open spec fn cache_level(entry: RawQueryResult) -> nat {
    bit_field(entry.eax as nat, 5, 8)
}

/// The line size in bytes: bits 0..12 of `ebx`, plus one.
pub open spec fn line_size(entry: RawQueryResult) -> nat {
    bit_field(entry.ebx as nat, 0, 12) + 1
}

/// The number of line partitions: bits 12..22 of `ebx`, plus one.
pub open spec fn partitions(entry: RawQueryResult) -> nat {
    bit_field(entry.ebx as nat, 12, 22) + 1
}

/// The ways of associativity: bits 22..32 of `ebx`, plus one.
pub open spec fn associativity(entry: RawQueryResult) -> nat {
    bit_field(entry.ebx as nat, 22, 32) + 1
}

/// The number of sets: `ecx`, plus one.
pub open spec fn sets(entry: RawQueryResult) -> nat {
    (entry.ecx + 1) as nat
}

/// The size in bytes of the cache that an entry describes.
pub open spec fn cache_size(entry: RawQueryResult) -> nat {
    line_size(entry) * partitions(entry) * associativity(entry) * sets(entry)
}

/// An entry with type code 0 ends the enumeration.
pub open spec fn is_terminator(entry: RawQueryResult) -> bool {
    cache_type(entry) == 0
}

/// The slot that an entry's type and level select, if any: data and
/// instruction caches at level 1, unified caches at levels 2 and 3.
pub open spec fn slot_of(entry: RawQueryResult) -> Option<CacheSlot> {
    let ty = cache_type(entry);
    let level = cache_level(entry);
    if ty == 1 && level == 1 {
        Some(CacheSlot::L1Data)
    } else if ty == 2 && level == 1 {
        Some(CacheSlot::L1Instruction)
    } else if ty == 3 && level == 2 {
        Some(CacheSlot::L2)
    } else if ty == 3 && level == 3 {
        Some(CacheSlot::L3)
    } else {
        None
    }
}

/// The record that an entry describes.
pub open spec fn described_cache(entry: RawQueryResult) -> PhysicalDeviceCacheProperties {
    PhysicalDeviceCacheProperties {
        size: cache_size(entry) as u32,
        line_size: line_size(entry) as u32,
    }
}

/// The hierarchy after one entry that is no terminator: the entry's record
/// replaces the one in its slot. An entry that selects no slot, or whose
/// size 32 bits cannot hold, changes nothing.
pub open spec fn apply_entry(caches: CacheHierarchy, entry: RawQueryResult) -> CacheHierarchy {
    match slot_of(entry) {
        Some(slot) if cache_size(entry) <= u32::MAX => caches.with(slot, described_cache(entry)),
        _ => caches,
    }
}

/// The hierarchy after the entries up to the first terminator, starting from
/// `caches`; `None` where no entry is a terminator.
pub open spec fn walk(caches: CacheHierarchy, entries: Seq<RawQueryResult>) -> Option<
    CacheHierarchy,
>
    decreases entries.len(),
{
    if entries.len() == 0 {
        None
    } else if is_terminator(entries[0]) {
        Some(caches)
    } else {
        walk(apply_entry(caches, entries[0]), entries.skip(1))
    }
}

/// The caches of an Intel processor, from the entries of its cache leaf in
/// sub-leaf order. Entries behind the first terminator are not looked at; an
/// enumeration without terminator yields no information at all.
pub open spec fn intel_caches(entries: Seq<RawQueryResult>) -> CacheHierarchy {
    match walk(CacheHierarchy::unavailable(), entries) {
        Some(caches) => caches,
        None => CacheHierarchy::unavailable(),
    }
}

/// The fields of an entry are bounded by their widths.
proof fn lemma_entry_bounds(entry: RawQueryResult)
    ensures
        cache_type(entry) < 32,
        cache_level(entry) < 8,
        1 <= line_size(entry) <= 4096,
        1 <= partitions(entry) <= 1024,
        1 <= associativity(entry) <= 1024,
        1 <= sets(entry) <= 0x1_0000_0000,
        1 <= line_size(entry) * partitions(entry) <= 0x40_0000,
        1 <= line_size(entry) * partitions(entry) * associativity(entry) <= 0x1_0000_0000,
        1 <= cache_size(entry),
{
    lemma2_to64();
    lemma_bit_field_bound(entry.eax, 0, 5);
    lemma_bit_field_bound(entry.eax, 5, 8);
    lemma_bit_field_bound(entry.ebx, 0, 12);
    lemma_bit_field_bound(entry.ebx, 12, 22);
    lemma_bit_field_bound(entry.ebx, 22, 32);
    let l = line_size(entry);
    let p = partitions(entry);
    let a = associativity(entry);
    let s = sets(entry);
    assert(1 <= l * p <= 0x40_0000) by (nonlinear_arith)
        requires
            1 <= l <= 4096,
            1 <= p <= 1024,
    ;
    assert(1 <= (l * p) * a <= 0x1_0000_0000) by (nonlinear_arith)
        requires
            1 <= l * p <= 0x40_0000,
            1 <= a <= 1024,
    ;
    assert(1 <= ((l * p) * a) * s) by (nonlinear_arith)
        requires
            1 <= (l * p) * a,
            1 <= s,
    ;
}

/// The answers to the sub-leaves 0, 1, 2, ... of the cache leaf, in that
/// order.
pub open spec fn are_cache_sub_leaves(entries: Seq<QueryAnswer>) -> bool {
    forall|i: int|
        0 <= i < entries.len() ==> (#[trigger] entries[i]).leaf == INTEL_CACHE_LEAF
            && entries[i].sub_leaf == i
}

/// Applies one entry of the cache leaf to `caches`. Returns `false` for the
/// terminator, which changes nothing, and `true` for every other entry.
pub fn decode_intel_entry(caches: &mut CacheHierarchy, answer: &QueryAnswer) -> (more: bool)
    requires
        answer.leaf == INTEL_CACHE_LEAF,
    ensures
        more == !is_terminator(answer.registers),
        *final(caches) == if more {
            apply_entry(*old(caches), answer.registers)
        } else {
            *old(caches)
        },
{
    let entry = &answer.registers;
    proof {
        lemma_entry_bounds(*entry);
    }
    let ty = extract_bits(entry.eax, 0..5);
    if ty == 0 {
        return false;
    }
    let level = extract_bits(entry.eax, 5..8);
    let line_size: u32 = extract_bits(entry.ebx, 0..12) + 1;
    let partitions: u32 = extract_bits(entry.ebx, 12..22) + 1;
    let associativity: u32 = extract_bits(entry.ebx, 22..32) + 1;
    let num_sets: u64 = entry.ecx as u64 + 1;
    let way_bytes: u64 = (line_size * partitions) as u64 * associativity as u64;
    assert(way_bytes * num_sets <= 0x1_0000_0000_0000_0000) by (nonlinear_arith)
        requires
            way_bytes <= 0x1_0000_0000,
            num_sets <= 0x1_0000_0000,
    ;
    let size: u128 = way_bytes as u128 * num_sets as u128;
    if size > u32::MAX as u128 {
        return true;
    }
    let properties = PhysicalDeviceCacheProperties { size: size as u32, line_size };
    if ty == 1 && level == 1 {
        caches.set(CacheSlot::L1Data, properties);
    } else if ty == 2 && level == 1 {
        caches.set(CacheSlot::L1Instruction, properties);
    } else if ty == 3 && level == 2 {
        caches.set(CacheSlot::L2, properties);
    } else if ty == 3 && level == 3 {
        caches.set(CacheSlot::L3, properties);
    }
    true
}

/// Decodes the four caches of an Intel processor from the answers to the
/// sub-leaves of its cache leaf, given in sub-leaf order from sub-leaf 0.
pub fn decode_intel_caches(entries: &[QueryAnswer]) -> (caches: CacheHierarchy)
    requires
        are_cache_sub_leaves(entries@),
    ensures
        caches == intel_caches(registers_of(entries@)),
{
    let ghost registers = registers_of(entries@);
    let mut caches = CacheHierarchy::default();
    let mut i: usize = 0;
    assert(registers.skip(0) =~= registers);
    while i < entries.len()
        invariant
            i <= entries@.len(),
            registers == registers_of(entries@),
            are_cache_sub_leaves(entries@),
            walk(CacheHierarchy::unavailable(), registers) == walk(caches, registers.skip(i as int)),
        decreases entries@.len() - i,
    {
        let ghost rest = registers.skip(i as int);
        assert(rest[0] == entries@[i as int].registers);
        assert(rest.skip(1) =~= registers.skip(i + 1));
        if !decode_intel_entry(&mut caches, &entries[i]) {
            return caches;
        }
        i += 1;
    }
    CacheHierarchy::default()
}

/// The entries that `query_cache_entries` can return: at most
/// `MAX_CACHE_ENTRIES`, none but the last a terminator, and the last one a
/// terminator unless the limit was reached.
pub open spec fn is_enumeration(entries: Seq<RawQueryResult>) -> bool {
    &&& 1 <= entries.len() <= MAX_CACHE_ENTRIES
    &&& forall|i: int| 0 <= i < entries.len() - 1 ==> !is_terminator(#[trigger] entries[i])
    &&& entries.len() < MAX_CACHE_ENTRIES ==> is_terminator(entries.last())
}

/// Queries the sub-leaves of the cache leaf in order, from sub-leaf 0 up to
/// and including the first terminator, and returns the answers. No
/// sub-leaf behind a terminator is queried, and none from
/// `MAX_CACHE_ENTRIES` on.
pub fn query_cache_entries() -> (entries: Vec<QueryAnswer>)
    ensures
        are_cache_sub_leaves(entries@),
        is_enumeration(registers_of(entries@)),
{
    let mut entries: Vec<QueryAnswer> = Vec::new();
    let mut sub_leaf: u32 = 0;
    loop
        invariant_except_break
            sub_leaf < MAX_CACHE_ENTRIES,
            entries@.len() == sub_leaf,
            forall|i: int|
                0 <= i < entries@.len() ==> !is_terminator((#[trigger] entries@[i]).registers),
        invariant
            are_cache_sub_leaves(entries@),
        ensures
            is_enumeration(registers_of(entries@)),
        decreases MAX_CACHE_ENTRIES - sub_leaf,
    {
        let entry = query_sub(INTEL_CACHE_LEAF, sub_leaf);
        let ends = extract_bits(entry.registers.eax, 0..5) == 0;
        entries.push(entry);
        if ends || sub_leaf + 1 == MAX_CACHE_ENTRIES {
            break;
        }
        sub_leaf += 1;
    }
    entries
}

/// Decoding stops at the first terminator: whatever entries stand behind one
/// have no part in the result.
pub proof fn lemma_entries_behind_terminator_ignored(
    entries: Seq<RawQueryResult>,
    behind: Seq<RawQueryResult>,
)
    requires
        exists|i: int| 0 <= i < entries.len() && is_terminator(#[trigger] entries[i]),
    ensures
        intel_caches(entries + behind) == intel_caches(entries),
{
    lemma_walk_ignores_rest(CacheHierarchy::unavailable(), entries, behind);
}

proof fn lemma_walk_ignores_rest(
    caches: CacheHierarchy,
    entries: Seq<RawQueryResult>,
    behind: Seq<RawQueryResult>,
)
    requires
        exists|i: int| 0 <= i < entries.len() && is_terminator(#[trigger] entries[i]),
    ensures
        walk(caches, entries + behind) == walk(caches, entries),
        walk(caches, entries) is Some,
    decreases entries.len(),
{
    let i = choose|i: int| 0 <= i < entries.len() && is_terminator(#[trigger] entries[i]);
    assert((entries + behind)[0] == entries[0]);
    if !is_terminator(entries[0]) {
        assert((entries + behind).skip(1) =~= entries.skip(1) + behind);
        assert(entries.skip(1)[i - 1] == entries[i]);
        lemma_walk_ignores_rest(apply_entry(caches, entries[0]), entries.skip(1), behind);
    }
}

/// Every record that the walk produces is fully populated or without
/// information: no cache is ever reported with only one of its two fields.
pub proof fn lemma_intel_caches_consistent(entries: Seq<RawQueryResult>)
    ensures
        intel_caches(entries).is_consistent(),
{
    lemma_walk_consistent(CacheHierarchy::unavailable(), entries);
}

proof fn lemma_walk_consistent(caches: CacheHierarchy, entries: Seq<RawQueryResult>)
    requires
        caches.is_consistent(),
    ensures
        walk(caches, entries) matches Some(end) ==> end.is_consistent(),
    decreases entries.len(),
{
    if entries.len() > 0 && !is_terminator(entries[0]) {
        lemma_entry_bounds(entries[0]);
        lemma_walk_consistent(apply_entry(caches, entries[0]), entries.skip(1));
    }
}

} // verus!

//! Normalizing the flat list of relationship records that an operating
//! system reports into core counts and per-level cache figures.

use vstd::prelude::*;
use crate::cache::CacheHierarchy;
use crate::cache::CacheSlot;
use crate::cache::PhysicalDeviceCacheProperties;

verus! {

/// What a cache holds.
#[derive(Debug, Copy, Clone, PartialEq, Eq, Structural)]
pub enum CacheKind {
    Instruction,
    Data,
    Unified,
    /// Any other kind, such as a trace cache.
    Other,
}

/// One relationship record of the operating system's processor topology.
#[derive(Debug, Copy, Clone, PartialEq, Eq, Structural)]
pub enum TopologyRecord {
    /// One physical core.
    ProcessorCore,
    /// One package; `mask` has a bit set for each of its logical processors.
    ProcessorPackage { mask: usize },
    /// One cache.
    Cache { level: u8, kind: CacheKind, size: u32, line_size: u16 },
    /// A relationship that discovery does not use.
    Other,
}

/// Core counts and caches, as normalization yields them.
#[derive(Debug, PartialEq, Eq, Structural)]
pub struct Topology {
    pub logical_cores: usize,
    pub physical_cores: usize,
    pub caches: CacheHierarchy,
}

/// The number of whole records in `length` bytes of records of `record_size`
/// bytes each.
pub open spec fn records_in(length: u32, record_size: u32) -> nat
    recommends
        record_size > 0,
{
    (length / record_size) as nat
}

/// The slot of a cache of the given level and kind, if it is one of the four
/// that discovery reports.
pub open spec fn slot_of(level: u8, kind: CacheKind) -> Option<CacheSlot> {
    if level == 1 && kind == CacheKind::Instruction {
        Some(CacheSlot::L1Instruction)
    } else if level == 1 && kind == CacheKind::Data {
        Some(CacheSlot::L1Data)
    } else if level == 2 && kind == CacheKind::Unified {
        Some(CacheSlot::L2)
    } else if level == 3 && kind == CacheKind::Unified {
        Some(CacheSlot::L3)
    } else {
        None
    }
}

/// Whether `record` is a cache record for `slot`.
pub open spec fn is_cache_for(record: TopologyRecord, slot: CacheSlot) -> bool {
    record matches TopologyRecord::Cache { level, kind, .. } && slot_of(level, kind) == Some(slot)
}

/// The number of bits set in `mask`.
pub open spec fn popcount(mask: nat) -> nat
    decreases mask,
{
    if mask == 0 {
        0
    } else {
        mask % 2 + popcount(mask / 2)
    }
}

/// The number of `ProcessorCore` records.
pub open spec fn core_count(records: Seq<TopologyRecord>) -> nat
    decreases records.len(),
{
    if records.len() == 0 {
        0
    } else {
        core_count(records.drop_last()) + if records.last() is ProcessorCore {
            1nat
        } else {
            0nat
        }
    }
}

/// The bits set in the masks of all `ProcessorPackage` records together.
pub open spec fn logical_count(records: Seq<TopologyRecord>) -> nat
    decreases records.len(),
{
    if records.len() == 0 {
        0
    } else {
        logical_count(records.drop_last()) + match records.last() {
            TopologyRecord::ProcessorPackage { mask } => popcount(mask as nat),
            _ => 0nat,
        }
    }
}

/// The sizes of all cache records for `slot`, summed.
pub open spec fn total_size(records: Seq<TopologyRecord>, slot: CacheSlot) -> nat
    decreases records.len(),
{
    if records.len() == 0 {
        0
    } else {
        total_size(records.drop_last(), slot) + match records.last() {
            TopologyRecord::Cache { size, .. } if is_cache_for(records.last(), slot) => size as nat,
            _ => 0nat,
        }
    }
}

/// The line size of the last cache record for `slot`; 0 where there is none.
pub open spec fn last_line_size(records: Seq<TopologyRecord>, slot: CacheSlot) -> nat
    decreases records.len(),
{
    if records.len() == 0 {
        0
    } else {
        match records.last() {
            TopologyRecord::Cache { line_size, .. } if is_cache_for(records.last(), slot) => line_size as nat,
            _ => last_line_size(records.drop_last(), slot),
        }
    }
}

/// The sums over `records` fit the fields that hold them.
pub open spec fn sums_fit(records: Seq<TopologyRecord>) -> bool {
    &&& logical_count(records) <= usize::MAX
    &&& total_size(records, CacheSlot::L1Data) <= u32::MAX
    &&& total_size(records, CacheSlot::L1Instruction) <= u32::MAX
    &&& total_size(records, CacheSlot::L2) <= u32::MAX
    &&& total_size(records, CacheSlot::L3) <= u32::MAX
}

/// What normalization asks of its input: at least one physical core, and
/// sums that fit.
pub open spec fn normalizable(records: Seq<TopologyRecord>) -> bool {
    core_count(records) >= 1 && sums_fit(records)
}

/// The cache in `slot` over the whole package: sizes summed, the line size of
/// the last record.
pub open spec fn package_cache(records: Seq<TopologyRecord>, slot: CacheSlot) -> PhysicalDeviceCacheProperties {
    PhysicalDeviceCacheProperties {
        size: total_size(records, slot) as u32,
        line_size: last_line_size(records, slot) as u32,
    }
}

/// The cache in `slot` of one physical core: the package's size divided by
/// the number of cores.
pub open spec fn core_cache(records: Seq<TopologyRecord>, slot: CacheSlot) -> PhysicalDeviceCacheProperties {
    PhysicalDeviceCacheProperties {
        size: (total_size(records, slot) / core_count(records)) as u32,
        line_size: last_line_size(records, slot) as u32,
    }
}

/// The normalized topology: the two core counts, L1 and L2 per physical core,
/// L3 for the package.
pub open spec fn normalized(records: Seq<TopologyRecord>) -> Topology {
    Topology {
        logical_cores: logical_count(records) as usize,
        physical_cores: core_count(records) as usize,
        caches: CacheHierarchy {
            l1_data: core_cache(records, CacheSlot::L1Data),
            l1_instruction: core_cache(records, CacheSlot::L1Instruction),
            l2: core_cache(records, CacheSlot::L2),
            l3: package_cache(records, CacheSlot::L3),
        },
    }
}

/// A number has no more bits set than its value.
proof fn lemma_popcount_bound(mask: nat)
    ensures
        popcount(mask) <= mask,
    decreases mask,
{
    if mask != 0 {
        lemma_popcount_bound(mask / 2);
    }
}

/// There are no more cores than records.
proof fn lemma_core_count_bound(records: Seq<TopologyRecord>)
    ensures
        core_count(records) <= records.len(),
    decreases records.len(),
{
    if records.len() > 0 {
        lemma_core_count_bound(records.drop_last());
    }
}

/// The sums over a prefix are no larger than those over the whole list.
proof fn lemma_prefix_sums(records: Seq<TopologyRecord>, n: int)
    requires
        0 <= n <= records.len(),
    ensures
        logical_count(records.take(n)) <= logical_count(records),
        forall|slot: CacheSlot| #[trigger]
            total_size(records.take(n), slot) <= total_size(records, slot),
    decreases records.len(),
{
    if n == records.len() {
        assert(records.take(n) =~= records);
    } else {
        assert(records.drop_last().take(n) =~= records.take(n));
        lemma_prefix_sums(records.drop_last(), n);
    }
}

/// `caches` holds the package-level caches of `seen`, whose sizes fit.
spec fn sums_so_far(caches: CacheHierarchy, seen: Seq<TopologyRecord>) -> bool {
    &&& forall|slot: CacheSlot| #[trigger] total_size(seen, slot) <= u32::MAX
    &&& forall|slot: CacheSlot| #[trigger] caches.at(slot) == package_cache(seen, slot)
}

/// A record that is no cache record for any slot leaves the cache sums as
/// they are.
proof fn lemma_sums_unchanged(
    caches: CacheHierarchy,
    seen: Seq<TopologyRecord>,
    next: Seq<TopologyRecord>,
)
    requires
        next.len() > 0,
        next.drop_last() == seen,
        forall|slot: CacheSlot| !is_cache_for(next.last(), slot),
        sums_so_far(caches, seen),
    ensures
        sums_so_far(caches, next),
{
    assert forall|slot: CacheSlot| #[trigger] total_size(next, slot) == total_size(seen, slot) by {
        assert(!is_cache_for(next.last(), slot));
    }
    assert forall|slot: CacheSlot| #[trigger]
        package_cache(next, slot) == package_cache(seen, slot) by {
        assert(!is_cache_for(next.last(), slot));
        assert(total_size(next, slot) == total_size(seen, slot));
        assert(last_line_size(next, slot) == last_line_size(seen, slot));
    }
}

/// A cache record for `slot` adds its size to that slot's sum and sets its
/// line size; the other slots stay as they are.
proof fn lemma_sums_extended(
    before: CacheHierarchy,
    after: CacheHierarchy,
    seen: Seq<TopologyRecord>,
    next: Seq<TopologyRecord>,
    slot: CacheSlot,
)
    requires
        next.len() > 0,
        next.drop_last() == seen,
        is_cache_for(next.last(), slot),
        sums_so_far(before, seen),
        total_size(next, slot) <= u32::MAX,
        after == before.with(slot, package_cache(next, slot)),
    ensures
        sums_so_far(after, next),
{
    assert forall|other: CacheSlot| #[trigger] total_size(next, other) <= u32::MAX by {
        assert(total_size(seen, other) <= u32::MAX);
    }
    assert forall|other: CacheSlot| #[trigger] after.at(other) == package_cache(next, other) by {
        assert(before.at(other) == package_cache(seen, other));
    }
}

/// The number of records to allocate for, where the operating system asks
/// for a buffer of `length` bytes and one record takes `record_size` bytes.
/// `None` where `length` is no whole number of records.
pub fn record_count(length: u32, record_size: u32) -> (count: Option<u32>)
    ensures
        count is Some <==> record_size > 0 && length % record_size == 0,
        count matches Some(n) ==> n == records_in(length, record_size),
{
    if record_size == 0 || length % record_size != 0 {
        None
    } else {
        Some(length / record_size)
    }
}

/// The number of records that may be read from a buffer allocated for
/// `capacity` records after the populating call: none where the call did
/// not succeed; else the whole records among the `returned_length` bytes
/// that the operating system says it has written, and never more than were
/// allocated.
pub fn populated_count(succeeded: bool, capacity: u32, returned_length: u32, record_size: u32) -> (count: u32)
    requires
        record_size > 0,
    ensures
        count == if !succeeded {
            0
        } else if records_in(returned_length, record_size) < capacity {
            records_in(returned_length, record_size)
        } else {
            capacity as nat
        },
{
    if !succeeded {
        return 0;
    }
    let written = returned_length / record_size;
    if written < capacity {
        written
    } else {
        capacity
    }
}

/// Counts the bits set in `mask`.
pub fn count_ones(mask: usize) -> (count: usize)
    ensures
        count == popcount(mask as nat),
{
    let mut rest = mask;
    let mut count: usize = 0;
    proof {
        lemma_popcount_bound(mask as nat);
    }
    while rest != 0
        invariant
            count + popcount(rest as nat) == popcount(mask as nat),
            popcount(mask as nat) <= usize::MAX,
        decreases rest,
    {
        count += rest % 2;
        rest = rest / 2;
    }
    count
}

/// The slot of a cache of the given level and kind.
pub fn cache_slot(level: u8, kind: CacheKind) -> (slot: Option<CacheSlot>)
    ensures
        slot == slot_of(level, kind),
{
    match kind {
        CacheKind::Instruction => if level == 1 {
            Some(CacheSlot::L1Instruction)
        } else {
            None
        },
        CacheKind::Data => if level == 1 {
            Some(CacheSlot::L1Data)
        } else {
            None
        },
        CacheKind::Unified => if level == 2 {
            Some(CacheSlot::L2)
        } else if level == 3 {
            Some(CacheSlot::L3)
        } else {
            None
        },
        CacheKind::Other => None,
    }
}

/// Walks the records once and sums them up; `None` where a sum does not fit.
fn accumulate(records: &[TopologyRecord]) -> (sums: Option<Topology>)
    ensures
        sums is Some <==> sums_fit(records@),
        sums matches Some(t) ==> {
            &&& t.physical_cores == core_count(records@)
            &&& t.logical_cores == logical_count(records@)
            &&& forall|slot: CacheSlot| #[trigger] t.caches.at(slot) == package_cache(records@, slot)
        },
{
    let mut physical_cores: usize = 0;
    let mut logical_cores: usize = 0;
    let mut caches = CacheHierarchy::default();
    let mut i: usize = 0;
    assert(records@.take(0) =~= Seq::<TopologyRecord>::empty());
    while i < records.len()
        invariant
            i <= records@.len(),
            physical_cores == core_count(records@.take(i as int)),
            logical_cores == logical_count(records@.take(i as int)),
            sums_so_far(caches, records@.take(i as int)),
        decreases records@.len() - i,
    {
        let ghost seen = records@.take(i as int);
        let ghost next = records@.take(i + 1);
        proof {
            assert(next.drop_last() =~= seen);
            assert(next.last() == records@[i as int]);
            lemma_core_count_bound(next);
            lemma_prefix_sums(records@, i + 1);
        }
        match records[i] {
            TopologyRecord::ProcessorCore => {
                physical_cores += 1;
                proof {
                    lemma_sums_unchanged(caches, seen, next);
                }
            },
            TopologyRecord::ProcessorPackage { mask } => {
                let ones = count_ones(mask);
                if ones > usize::MAX - logical_cores {
                    return None;
                }
                logical_cores += ones;
                proof {
                    lemma_sums_unchanged(caches, seen, next);
                }
            },
            TopologyRecord::Cache { level, kind, size, line_size } => {
                match cache_slot(level, kind) {
                    Some(slot) => {
                        let so_far = match slot {
                            CacheSlot::L1Data => caches.l1_data.size,
                            CacheSlot::L1Instruction => caches.l1_instruction.size,
                            CacheSlot::L2 => caches.l2.size,
                            CacheSlot::L3 => caches.l3.size,
                        };
                        assert(so_far == caches.at(slot).size);
                        if size > u32::MAX - so_far {
                            assert(total_size(next, slot) > u32::MAX);
                            return None;
                        }
                        let ghost before = caches;
                        caches.set(
                            slot,
                            PhysicalDeviceCacheProperties {
                                size: so_far + size,
                                line_size: line_size as u32,
                            },
                        );
                        proof {
                            lemma_sums_extended(before, caches, seen, next, slot);
                        }
                    },
                    None => {
                        proof {
                            lemma_sums_unchanged(caches, seen, next);
                        }
                    },
                }
            },
            TopologyRecord::Other => {
                proof {
                    lemma_sums_unchanged(caches, seen, next);
                }
            },
        }
        i += 1;
    }
    assert(records@.take(i as int) =~= records@);
    assert(sums_fit(records@) && forall|slot: CacheSlot| #[trigger]
        caches.at(slot) == package_cache(records@, slot)) by {
        assert(caches.at(CacheSlot::L1Data) == package_cache(records@, CacheSlot::L1Data));
        assert(caches.at(CacheSlot::L1Instruction) == package_cache(
            records@,
            CacheSlot::L1Instruction,
        ));
        assert(caches.at(CacheSlot::L2) == package_cache(records@, CacheSlot::L2));
        assert(caches.at(CacheSlot::L3) == package_cache(records@, CacheSlot::L3));
    }
    Some(Topology { logical_cores, physical_cores, caches })
}

/// Whether `records` can be normalized: they hold at least one physical core
/// and their sums fit.
pub fn can_normalize(records: &[TopologyRecord]) -> (ok: bool)
    ensures
        ok == normalizable(records@),
{
    match accumulate(records) {
        Some(sums) => sums.physical_cores >= 1,
        None => false,
    }
}

/// The size of one core's share of a cache that `cores` cores have together.
fn per_core(cache: &PhysicalDeviceCacheProperties, cores: usize) -> (share: PhysicalDeviceCacheProperties)
    requires
        cores >= 1,
    ensures
        share.size == cache.size as nat / cores as nat,
        share.line_size == cache.line_size,
{
    let size: u64 = cache.size as u64 / cores as u64;
    assert(size <= cache.size) by (nonlinear_arith)
        requires
            size == cache.size as nat / cores as nat,
            cores >= 1,
    ;
    PhysicalDeviceCacheProperties { size: size as u32, line_size: cache.line_size }
}

/// Normalizes the records of a single package: counts the physical and the
/// logical cores, sums the caches of each level, and divides the L1 and L2
/// sums by the number of physical cores.
pub fn normalize_topology(records: &[TopologyRecord]) -> (topology: Topology)
    requires
        normalizable(records@),
    ensures
        topology == normalized(records@),
{
    let sums = accumulate(records).unwrap();
    let cores = sums.physical_cores;
    assert(sums.caches.at(CacheSlot::L1Data) == package_cache(records@, CacheSlot::L1Data));
    assert(sums.caches.at(CacheSlot::L1Instruction) == package_cache(
        records@,
        CacheSlot::L1Instruction,
    ));
    assert(sums.caches.at(CacheSlot::L2) == package_cache(records@, CacheSlot::L2));
    assert(sums.caches.at(CacheSlot::L3) == package_cache(records@, CacheSlot::L3));
    Topology {
        logical_cores: sums.logical_cores,
        physical_cores: cores,
        caches: CacheHierarchy {
            l1_data: per_core(&sums.caches.l1_data, cores),
            l1_instruction: per_core(&sums.caches.l1_instruction, cores),
            l2: per_core(&sums.caches.l2, cores),
            l3: sums.caches.l3,
        },
    }
}

} // verus!

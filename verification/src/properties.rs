//! The properties of the local processor and their discovery.

use vstd::prelude::*;
use crate::amd::amd_caches;
use crate::amd::decode_amd_caches;
use crate::amd::AMD_L1_LEAF;
use crate::amd::AMD_L2_L3_LEAF;
use crate::cache::CacheHierarchy;
use crate::cache::PhysicalDeviceCacheProperties;
use crate::cores::logical_core_count;
use crate::cores::physical_core_count;
use crate::cpuid::query;
use crate::cpuid::registers_of;
use crate::cpuid::RawQueryResult;
use crate::intel::decode_intel_caches;
use crate::intel::intel_caches;
use crate::intel::is_enumeration;
use crate::intel::lemma_intel_caches_consistent;
use crate::intel::is_terminator;
use crate::intel::lemma_entries_behind_terminator_ignored;
use crate::intel::query_cache_entries;
use crate::intel::INTEL_CACHE_LEAF;
use crate::intel::MAX_CACHE_ENTRIES;
use crate::name::decode_device_name;
use crate::name::device_name;
use crate::name::NAME_LEAF;
use crate::topology::normalizable;
use crate::topology::normalize_topology;
use crate::topology::normalized;
use crate::topology::TopologyRecord;
use crate::vendor::signature_of;
use crate::vendor::vendor_of;
use crate::vendor::Vendor;
use crate::vendor::VENDOR_LEAF;

verus! {

/// Physical Device Properties
#[derive(Debug, PartialEq, Eq)]
pub struct PhysicalDeviceProperties {
    /// Device Hardware Vendor
    pub vendor: Vendor,
    /// Name of the device.
    pub device: String,
    /// Number of logical cores.
    pub logical_cores: usize,
    /// Number of physical cores.
    pub physical_cores: usize,
    /// Properties of the L1 Data Cache.
    pub l1_cache_data: PhysicalDeviceCacheProperties,
    /// Properties of the L1 Instruction Cache.
    pub l1_cache_instruction: PhysicalDeviceCacheProperties,
    /// Properties of the L2 Unified Cache.
    pub l2_cache: PhysicalDeviceCacheProperties,
    /// Properties of the L3 Unified Cache.
    pub l3_cache: PhysicalDeviceCacheProperties,
}

impl Clone for PhysicalDeviceProperties {
    fn clone(&self) -> (r: Self)
        ensures
            r == *self,
    {
        PhysicalDeviceProperties {
            vendor: self.vendor,
            device: self.device.clone(),
            logical_cores: self.logical_cores,
            physical_cores: self.physical_cores,
            l1_cache_data: self.l1_cache_data.clone(),
            l1_cache_instruction: self.l1_cache_instruction.clone(),
            l2_cache: self.l2_cache.clone(),
            l3_cache: self.l3_cache.clone(),
        }
    }
}

/// The vendor of a processor that answers leaf and sub-leaf as `machine`
/// does.
pub open spec fn vendor_on(machine: spec_fn(u32, u32) -> RawQueryResult) -> Vendor {
    vendor_of(signature_of(machine(VENDOR_LEAF, 0)))
}

/// The answers of `machine` to the three name leaves.
pub open spec fn name_leaves_on(machine: spec_fn(u32, u32) -> RawQueryResult) -> Seq<
    RawQueryResult,
> {
    seq![
        machine(NAME_LEAF, 0),
        machine((NAME_LEAF + 1) as u32, 0),
        machine((NAME_LEAF + 2) as u32, 0),
    ]
}

/// The answers of `machine` to the sub-leaves of the cache leaf that
/// discovery may read.
pub open spec fn cache_entries_on(machine: spec_fn(u32, u32) -> RawQueryResult) -> Seq<
    RawQueryResult,
> {
    Seq::new(MAX_CACHE_ENTRIES as nat, |i: int| machine(INTEL_CACHE_LEAF, i as u32))
}

/// The device name of a processor of `vendor` that answers as `machine`
/// does: for AMD, what the three name leaves spell; for every other vendor,
/// the empty name.
pub open spec fn name_on(vendor: Vendor, machine: spec_fn(u32, u32) -> RawQueryResult) -> Seq<
    char,
> {
    match vendor {
        Vendor::AMD => device_name(name_leaves_on(machine)),
        _ => Seq::empty(),
    }
}

/// The caches of a processor of `vendor` that answers as `machine` does: for
/// AMD, what its two cache leaves decode to; for Intel, what the walk over
/// its cache leaf yields; for an unknown vendor, no information, whatever
/// the answers are.
pub open spec fn caches_on(
    vendor: Vendor,
    machine: spec_fn(u32, u32) -> RawQueryResult,
) -> CacheHierarchy {
    match vendor {
        Vendor::AMD => amd_caches(machine(AMD_L1_LEAF, 0), machine(AMD_L2_L3_LEAF, 0)),
        Vendor::Intel => intel_caches(cache_entries_on(machine)),
        Vendor::Unknown => CacheHierarchy::unavailable(),
    }
}

/// `vendor` and `device` are vendor and device name of a processor that
/// answers as `machine` does.
pub open spec fn is_identified_on(
    machine: spec_fn(u32, u32) -> RawQueryResult,
    vendor: Vendor,
    device: Seq<char>,
) -> bool {
    vendor == vendor_on(machine) && device == name_on(vendor, machine)
}

/// Vendor and name are such as identification queries yield on some
/// processor.
pub open spec fn is_name_of(vendor: Vendor, device: Seq<char>) -> bool {
    exists|machine: spec_fn(u32, u32) -> RawQueryResult| #[trigger]
        is_identified_on(machine, vendor, device)
}

/// The caches are such as identification queries yield on some processor of
/// `vendor`.
pub open spec fn are_caches_of(vendor: Vendor, caches: CacheHierarchy) -> bool {
    exists|machine: spec_fn(u32, u32) -> RawQueryResult|
        caches == #[trigger] caches_on(vendor, machine)
}

/// The caches found for a vendor other than AMD are each fully populated or
/// without information.
pub proof fn lemma_caches_consistent(vendor: Vendor, caches: CacheHierarchy)
    requires
        vendor != Vendor::AMD,
        are_caches_of(vendor, caches),
    ensures
        caches.is_consistent(),
{
    if vendor == Vendor::Intel {
        let machine = choose|machine: spec_fn(u32, u32) -> RawQueryResult|
            caches == #[trigger] caches_on(vendor, machine);
        lemma_intel_caches_consistent(cache_entries_on(machine));
    }
}

/// For an unknown vendor discovery reports no cache and no name, whatever
/// the processor would have answered to further queries.
pub proof fn lemma_unknown_vendor_reports_nothing(
    properties: PhysicalDeviceProperties,
    machine: spec_fn(u32, u32) -> RawQueryResult,
)
    requires
        properties.is_discovery_on(machine),
        vendor_on(machine) == Vendor::Unknown,
    ensures
        properties.vendor == Vendor::Unknown,
        properties.device@ == Seq::<char>::empty(),
        properties.l1_cache_data == PhysicalDeviceCacheProperties::unavailable(),
        properties.l1_cache_instruction == PhysicalDeviceCacheProperties::unavailable(),
        properties.l2_cache == PhysicalDeviceCacheProperties::unavailable(),
        properties.l3_cache == PhysicalDeviceCacheProperties::unavailable(),
{
}

/// Discovery holds no state: two discoveries on a processor that answers
/// every query alike, with the same core counts, agree in every field.
pub proof fn lemma_discovery_is_repeatable(
    first: PhysicalDeviceProperties,
    second: PhysicalDeviceProperties,
    machine: spec_fn(u32, u32) -> RawQueryResult,
)
    requires
        first.is_discovery_on(machine),
        second.is_discovery_on(machine),
        first.logical_cores == second.logical_cores,
        first.physical_cores == second.physical_cores,
    ensures
        first.vendor == second.vendor,
        first.device@ == second.device@,
        first.logical_cores == second.logical_cores,
        first.physical_cores == second.physical_cores,
        first.l1_cache_data == second.l1_cache_data,
        first.l1_cache_instruction == second.l1_cache_instruction,
        first.l2_cache == second.l2_cache,
        first.l3_cache == second.l3_cache,
{
}

/// The answers that a walk has read, filled up with terminators to the
/// number of sub-leaves that discovery may read, decode as the walk does.
proof fn lemma_walk_on_machine(
    entries: Seq<RawQueryResult>,
    machine: spec_fn(u32, u32) -> RawQueryResult,
)
    requires
        is_enumeration(entries),
        forall|i: int|
            0 <= i < entries.len() ==> #[trigger] machine(INTEL_CACHE_LEAF, i as u32) == entries[i],
    ensures
        intel_caches(cache_entries_on(machine)) == intel_caches(entries),
{
    let all = cache_entries_on(machine);
    if entries.len() == MAX_CACHE_ENTRIES {
        assert(all =~= entries);
    } else {
        let behind = all.skip(entries.len() as int);
        assert(all =~= entries + behind);
        assert(is_terminator(entries[entries.len() - 1]));
        lemma_entries_behind_terminator_ignored(entries, behind);
    }
}

impl PhysicalDeviceProperties {
    /// The four caches together.
    pub open spec fn caches(&self) -> CacheHierarchy {
        CacheHierarchy {
            l1_data: self.l1_cache_data,
            l1_instruction: self.l1_cache_instruction,
            l2: self.l2_cache,
            l3: self.l3_cache,
        }
    }

    /// Vendor, name and caches are those of a processor that answers as
    /// `machine` does.
    pub open spec fn is_discovery_on(&self, machine: spec_fn(u32, u32) -> RawQueryResult) -> bool {
        &&& is_identified_on(machine, self.vendor, self.device@)
        &&& self.caches() == caches_on(self.vendor, machine)
    }

    /// What holds of every discovery by identification queries: vendor, name
    /// and caches are those of some processor, and there is at least one
    /// core of either kind.
    pub open spec fn is_discovery(&self) -> bool {
        &&& exists|machine: spec_fn(u32, u32) -> RawQueryResult| #[trigger]
            self.is_discovery_on(machine)
        &&& self.logical_cores >= 1
        &&& self.physical_cores >= 1
    }

    /// What holds of every discovery from the topology `records`: core
    /// counts and caches are their normalization, and the name is such as
    /// identification queries yield for the vendor.
    pub open spec fn is_discovery_from(&self, records: Seq<TopologyRecord>) -> bool {
        &&& self.logical_cores == normalized(records).logical_cores
        &&& self.physical_cores == normalized(records).physical_cores
        &&& self.caches() == normalized(records).caches
        &&& is_name_of(self.vendor, self.device@)
    }

    /// Queries leaf 0 and identifies the vendor from its signature: the
    /// vendor is the one that the signature of the answer names.
    pub fn system_cpuid_vendor() -> (vendor: Vendor)
        ensures
            exists|leaf: RawQueryResult| vendor == #[trigger] vendor_of(signature_of(leaf)),
    {
        let leaf = query(VENDOR_LEAF);
        Vendor::from_leaf(&leaf)
    }

    /// Identifies the vendor and, for an AMD processor, reads the device name
    /// from the three name leaves. For every other vendor the name is empty.
    pub fn system_cpuid_vendor_device() -> (found: (Vendor, String))
        ensures
            is_name_of(found.0, found.1@),
    {
        let vendor = Self::system_cpuid_vendor();
        let ghost signed = choose|leaf: RawQueryResult|
            vendor == #[trigger] vendor_of(signature_of(leaf));
        let device = match vendor {
            Vendor::AMD => {
                let leaves = [query(NAME_LEAF), query(NAME_LEAF + 1), query(NAME_LEAF + 2)];
                let name = decode_device_name(&leaves);
                proof {
                    let names = registers_of(leaves@);
                    let machine = |leaf: u32, sub_leaf: u32|
                        if leaf == NAME_LEAF {
                            names[0]
                        } else if leaf == NAME_LEAF + 1 {
                            names[1]
                        } else if leaf == NAME_LEAF + 2 {
                            names[2]
                        } else {
                            signed
                        };
                    assert(name_leaves_on(machine) =~= names);
                    assert(is_identified_on(machine, vendor, name@));
                }
                name
            },
            _ => {
                let name = String::new();
                proof {
                    let machine = |leaf: u32, sub_leaf: u32| signed;
                    assert(name@ =~= name_on(vendor, machine));
                    assert(is_identified_on(machine, vendor, name@));
                }
                name
            },
        };
        (vendor, device)
    }

    /// Queries and decodes the caches in the way of `vendor`: two fixed
    /// leaves for AMD, the walk over the cache leaf for Intel, and no query
    /// at all for an unknown vendor.
    pub fn system_cpuid_caches(vendor: Vendor) -> (caches: CacheHierarchy)
        ensures
            are_caches_of(vendor, caches),
    {
        match vendor {
            Vendor::AMD => {
                let l1 = query(AMD_L1_LEAF);
                let l2_l3 = query(AMD_L2_L3_LEAF);
                let caches = decode_amd_caches(&l1, &l2_l3);
                proof {
                    let machine = |leaf: u32, sub_leaf: u32|
                        if leaf == AMD_L1_LEAF {
                            l1.registers
                        } else {
                            l2_l3.registers
                        };
                    assert(caches == caches_on(vendor, machine));
                }
                caches
            },
            Vendor::Intel => {
                let entries = query_cache_entries();
                let caches = decode_intel_caches(entries.as_slice());
                proof {
                    let read = registers_of(entries@);
                    let machine = |leaf: u32, sub_leaf: u32|
                        if sub_leaf < read.len() {
                            read[sub_leaf as int]
                        } else {
                            RawQueryResult { eax: 0, ebx: 0, ecx: 0, edx: 0 }
                        };
                    lemma_walk_on_machine(read, machine);
                    assert(caches == caches_on(vendor, machine));
                }
                caches
            },
            Vendor::Unknown => {
                let caches = CacheHierarchy::default();
                proof {
                    let machine = |leaf: u32, sub_leaf: u32|
                        RawQueryResult { eax: 0, ebx: 0, ecx: 0, edx: 0 };
                    assert(caches == caches_on(vendor, machine));
                }
                caches
            },
        }
    }

    /// Discovers the properties of the local processor from identification
    /// queries, and asks the operating system for the two core counts.
    pub fn system() -> (properties: Self)
        ensures
            properties.is_discovery(),
    {
        let (vendor, device) = Self::system_cpuid_vendor_device();
        let caches = Self::system_cpuid_caches(vendor);
        let properties = PhysicalDeviceProperties {
            vendor,
            device,
            logical_cores: logical_core_count(),
            physical_cores: physical_core_count(),
            l1_cache_data: caches.l1_data,
            l1_cache_instruction: caches.l1_instruction,
            l2_cache: caches.l2,
            l3_cache: caches.l3,
        };
        proof {
            let named = choose|machine: spec_fn(u32, u32) -> RawQueryResult| #[trigger]
                is_identified_on(machine, vendor, properties.device@);
            let cached = choose|machine: spec_fn(u32, u32) -> RawQueryResult|
                caches == #[trigger] caches_on(vendor, machine);
            let machine = |leaf: u32, sub_leaf: u32|
                if leaf == INTEL_CACHE_LEAF || leaf == AMD_L1_LEAF || leaf == AMD_L2_L3_LEAF {
                    cached(leaf, sub_leaf)
                } else {
                    named(leaf, sub_leaf)
                };
            assert(name_leaves_on(machine) =~= name_leaves_on(named));
            assert(cache_entries_on(machine) =~= cache_entries_on(cached));
            assert(properties.caches() == caches);
            assert(properties.is_discovery_on(machine));
        }
        properties
    }

    /// Discovers the properties of the local processor where the operating
    /// system has reported its topology: core counts and caches come from
    /// `records`, vendor and device name from identification queries.
    pub fn system_from_topology(records: &[TopologyRecord]) -> (properties: Self)
        requires
            normalizable(records@),
        ensures
            properties.is_discovery_from(records@),
    {
        let topology = normalize_topology(records);
        let (vendor, device) = Self::system_cpuid_vendor_device();
        PhysicalDeviceProperties {
            vendor,
            device,
            logical_cores: topology.logical_cores,
            physical_cores: topology.physical_cores,
            l1_cache_data: topology.caches.l1_data,
            l1_cache_instruction: topology.caches.l1_instruction,
            l2_cache: topology.caches.l2,
            l3_cache: topology.caches.l3,
        }
    }
}

} // verus!

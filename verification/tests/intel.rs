use physical_device::cache::CacheHierarchy;
use physical_device::cpuid::QueryAnswer;
use physical_device::cpuid::RawQueryResult;
use physical_device::intel::decode_intel_caches;
use physical_device::intel::decode_intel_entry;
use physical_device::intel::query_cache_entries;
use physical_device::intel::INTEL_CACHE_LEAF;
use physical_device::intel::MAX_CACHE_ENTRIES;
use physical_device::PhysicalDeviceCacheProperties;
use physical_device::PhysicalDeviceProperties;
use physical_device::Vendor;

const TERMINATOR: RawQueryResult = RawQueryResult { eax: 0, ebx: 0, ecx: 0, edx: 0 };

fn entry(ty: u32, level: u32, line: u32, partitions: u32, ways: u32, sets: u32) -> RawQueryResult {
    RawQueryResult {
        eax: ty | (level << 5) | (1 << 8) | (0x3f << 26),
        ebx: (line - 1) | ((partitions - 1) << 12) | ((ways - 1) << 22),
        ecx: sets - 1,
        edx: 0x7,
    }
}

/// The registers as answers to the sub-leaves 0, 1, 2, ... of the cache leaf.
fn walked(registers: &[RawQueryResult]) -> Vec<QueryAnswer> {
    let mut sub_leaf = 0;
    let mut answers = Vec::new();
    for r in registers {
        answers.push(QueryAnswer { leaf: INTEL_CACHE_LEAF, sub_leaf, registers: *r });
        sub_leaf += 1;
    }
    answers
}

fn decode(registers: &[RawQueryResult]) -> CacheHierarchy {
    decode_intel_caches(&walked(registers))
}

fn apply(caches: &mut CacheHierarchy, registers: &RawQueryResult) -> bool {
    decode_intel_entry(caches, &QueryAnswer { leaf: INTEL_CACHE_LEAF, sub_leaf: 0, registers: *registers })
}

fn cache(size: u32, line_size: u32) -> PhysicalDeviceCacheProperties {
    PhysicalDeviceCacheProperties { size, line_size }
}

#[test]
fn intel_cache_leaf_is_four() {
    assert_eq!(INTEL_CACHE_LEAF, 4);
}

#[test]
fn intel_walk_stops_at_terminator() {
    // the entry behind the terminator is never looked at
    let entries = [entry(1, 1, 64, 1, 8, 64), TERMINATOR, entry(3, 2, 64, 1, 4, 1024)];
    let caches = decode(&entries);
    assert_eq!(caches.l1_data, cache(32768, 64));
    assert_eq!(caches.l1_instruction, PhysicalDeviceCacheProperties::default());
    assert_eq!(caches.l2, PhysicalDeviceCacheProperties::default());
    assert_eq!(caches.l3, PhysicalDeviceCacheProperties::default());
    assert_eq!(caches, decode(&entries[..2]));
}

#[test]
fn intel_terminator_first_gives_no_information() {
    let entries = [TERMINATOR, entry(1, 1, 64, 1, 8, 64)];
    assert_eq!(decode(&entries), CacheHierarchy::default());
}

#[test]
fn intel_terminator_is_told_by_the_type_bits_alone() {
    let odd = RawQueryResult { eax: 0xffff_ffe0, ebx: 0xffff_ffff, ecx: 5, edx: 9 };
    let mut caches = CacheHierarchy::default();
    assert!(!apply(&mut caches, &odd));
    assert_eq!(caches, CacheHierarchy::default());
}

#[test]
fn intel_full_hierarchy() {
    let entries = [
        entry(1, 1, 64, 1, 8, 64),
        entry(2, 1, 64, 1, 8, 64),
        entry(3, 2, 64, 1, 4, 1024),
        entry(3, 3, 64, 1, 16, 8192),
        TERMINATOR,
    ];
    let caches = decode(&entries);
    assert_eq!(
        caches,
        CacheHierarchy {
            l1_data: cache(32 * 1024, 64),
            l1_instruction: cache(32 * 1024, 64),
            l2: cache(256 * 1024, 64),
            l3: cache(8 * 1024 * 1024, 64),
        }
    );
}

#[test]
fn intel_size_is_the_product_of_the_four_fields() {
    let entries = [entry(3, 2, 32, 3, 5, 7), TERMINATOR];
    assert_eq!(decode(&entries).l2, cache(32 * 3 * 5 * 7, 32));
}

#[test]
fn intel_unified_level_two_is_l2() {
    let mut caches = CacheHierarchy::default();
    assert!(apply(&mut caches, &entry(3, 2, 64, 1, 4, 1024)));
    assert_eq!(caches.l2, cache(262144, 64));
    assert_eq!(caches.l3, PhysicalDeviceCacheProperties::default());
}

#[test]
fn intel_unified_level_three_is_l3() {
    let mut caches = CacheHierarchy::default();
    assert!(apply(&mut caches, &entry(3, 3, 64, 1, 16, 8192)));
    assert_eq!(caches.l3, cache(8388608, 64));
    assert_eq!(caches.l2, PhysicalDeviceCacheProperties::default());
}

#[test]
fn intel_data_cache_at_level_two_is_ignored() {
    let mut caches = CacheHierarchy::default();
    assert!(apply(&mut caches, &entry(1, 2, 64, 1, 8, 64)));
    assert_eq!(caches, CacheHierarchy::default());

    let before = CacheHierarchy {
        l1_data: cache(1, 2),
        l1_instruction: cache(3, 4),
        l2: cache(5, 6),
        l3: cache(7, 8),
    };
    let mut caches = before.clone();
    assert!(apply(&mut caches, &entry(1, 2, 64, 1, 8, 64)));
    assert_eq!(caches, before);
}

#[test]
fn intel_other_combinations_are_ignored() {
    let entries = [
        entry(1, 3, 64, 1, 8, 64),
        entry(2, 2, 64, 1, 8, 64),
        entry(3, 1, 64, 1, 8, 64),
        entry(3, 4, 64, 1, 8, 64),
        entry(4, 1, 64, 1, 8, 64),
        entry(31, 7, 64, 1, 8, 64),
        TERMINATOR,
    ];
    assert_eq!(decode(&entries), CacheHierarchy::default());
}

#[test]
fn intel_later_entry_replaces_earlier_one() {
    let entries = [entry(3, 2, 64, 1, 4, 1024), entry(3, 2, 128, 1, 8, 2048), TERMINATOR];
    assert_eq!(decode(&entries).l2, cache(128 * 8 * 2048, 128));
}

#[test]
fn intel_largest_fields() {
    // 4096 * 1024 * 1024 is 2^32 already: no number of sets makes it fit
    let mut caches = CacheHierarchy::default();
    let widest = RawQueryResult { eax: 1 | (1 << 5), ebx: 0xffff_ffff, ecx: 0, edx: 0 };
    assert!(apply(&mut caches, &widest));
    assert_eq!(caches, CacheHierarchy::default());
}

#[test]
fn intel_size_beyond_32_bits_leaves_the_slot() {
    let before = CacheHierarchy {
        l1_data: cache(32768, 64),
        l1_instruction: cache(0, 0),
        l2: cache(262144, 64),
        l3: cache(0, 0),
    };
    let mut caches = before.clone();
    // 64 * 1 * 16 * 2^32
    let many_sets = RawQueryResult { eax: 3 | (2 << 5), ebx: 63 | (15 << 22), ecx: 0xffff_ffff, edx: 0 };
    assert!(apply(&mut caches, &many_sets));
    assert_eq!(caches, before);
    // 64 * 1 * 1 * 2^26 = 2^32
    let just_over = entry(3, 2, 64, 1, 1, 1 << 26);
    assert!(apply(&mut caches, &just_over));
    assert_eq!(caches, before);
}

#[test]
fn intel_largest_size_that_fits() {
    // 1 * 1 * 1 * (2^32 - 1)
    let entries = [
        RawQueryResult { eax: 3 | (3 << 5), ebx: 0, ecx: 0xffff_fffe, edx: 0 },
        TERMINATOR,
    ];
    assert_eq!(decode(&entries).l3, cache(0xffff_ffff, 1));
}

#[test]
fn intel_walk_without_terminator_gives_no_information() {
    let entries = [entry(1, 1, 64, 1, 8, 64), entry(3, 2, 64, 1, 4, 1024)];
    assert_eq!(decode(&entries), CacheHierarchy::default());
    assert_eq!(decode(&[]), CacheHierarchy::default());
    let endless = vec![entry(1, 1, 64, 1, 8, 64); MAX_CACHE_ENTRIES as usize];
    assert_eq!(decode(&endless), CacheHierarchy::default());
}

#[test]
fn intel_decoded_records_are_never_half_filled() {
    let entries = [
        entry(1, 1, 1, 1, 1, 1),
        entry(2, 1, 4096, 1024, 1, 1),
        entry(3, 2, 64, 1, 1, 1 << 26),
        TERMINATOR,
    ];
    let caches = decode(&entries);
    for c in [&caches.l1_data, &caches.l1_instruction, &caches.l2, &caches.l3] {
        assert!((c.size > 0 && c.line_size > 0) || (c.size == 0 && c.line_size == 0));
    }
    assert_eq!(caches.l1_data, cache(1, 1));
    assert_eq!(caches.l1_instruction, cache(4096 * 1024, 4096));
    assert_eq!(caches.l2, cache(0, 0));
}

#[test]
fn queried_cache_entries_end_at_the_first_terminator() {
    let entries = query_cache_entries();
    assert!(!entries.is_empty());
    assert!(entries.len() <= MAX_CACHE_ENTRIES as usize);
    for e in &entries[..entries.len() - 1] {
        assert_ne!(e.registers.eax & 0x1f, 0);
    }
    if entries.len() < MAX_CACHE_ENTRIES as usize {
        assert_eq!(entries[entries.len() - 1].registers.eax & 0x1f, 0);
    }
    for (at, e) in entries.iter().enumerate() {
        assert_eq!(e.leaf, INTEL_CACHE_LEAF);
        assert_eq!(e.sub_leaf as usize, at);
    }
    assert_eq!(
        decode_intel_caches(&entries),
        PhysicalDeviceProperties::system_cpuid_caches(Vendor::Intel)
    );
}

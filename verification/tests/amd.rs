use physical_device::amd::decode_amd_caches;
use physical_device::amd::AMD_L1_LEAF;
use physical_device::amd::AMD_L2_L3_LEAF;
use physical_device::cache::CacheHierarchy;
use physical_device::cpuid::QueryAnswer;
use physical_device::cpuid::RawQueryResult;
use physical_device::PhysicalDeviceCacheProperties;

const ZERO: RawQueryResult = RawQueryResult { eax: 0, ebx: 0, ecx: 0, edx: 0 };

fn decode(l1: &RawQueryResult, l2_l3: &RawQueryResult) -> CacheHierarchy {
    decode_amd_caches(
        &QueryAnswer { leaf: AMD_L1_LEAF, sub_leaf: 0, registers: *l1 },
        &QueryAnswer { leaf: AMD_L2_L3_LEAF, sub_leaf: 0, registers: *l2_l3 },
    )
}

#[test]
fn amd_leaves_are_the_extended_cache_leaves() {
    assert_eq!(AMD_L1_LEAF, 0x8000_0005);
    assert_eq!(AMD_L2_L3_LEAF, 0x8000_0006);
}

#[test]
fn amd_l1_caches_decode() {
    let l1 = RawQueryResult {
        eax: 0xffff_ffff,
        ebx: 0xffff_ffff,
        ecx: (0x20 << 24) | 0x40,
        edx: (0x10 << 24) | 0x20,
    };
    let caches = decode(&l1, &ZERO);
    assert_eq!(caches.l1_data, PhysicalDeviceCacheProperties { size: 32 * 1024, line_size: 0x40 });
    assert_eq!(
        caches.l1_instruction,
        PhysicalDeviceCacheProperties { size: 16 * 1024, line_size: 0x20 }
    );
    assert_eq!(caches.l2, PhysicalDeviceCacheProperties::default());
    assert_eq!(caches.l3, PhysicalDeviceCacheProperties::default());
}

#[test]
fn amd_l1_ignores_the_bits_between_size_and_line_size() {
    let l1 = RawQueryResult { eax: 0, ebx: 0, ecx: 0x20ab_cd40, edx: 0x4012_3440 };
    let caches = decode(&l1, &ZERO);
    assert_eq!(caches.l1_data, PhysicalDeviceCacheProperties { size: 32768, line_size: 64 });
    assert_eq!(caches.l1_instruction, PhysicalDeviceCacheProperties { size: 65536, line_size: 64 });
}

#[test]
fn amd_l2_and_l3_decode() {
    // L2: 512 KiB, 64-byte lines; L3: 32 units of 512 KiB = 16 MiB, 64-byte lines
    let l2_l3 = RawQueryResult {
        eax: 0,
        ebx: 0,
        ecx: (512 << 16) | (0x6 << 12) | (1 << 8) | 64,
        edx: (32 << 18) | (0x9 << 12) | (1 << 8) | 64,
    };
    let caches = decode(&ZERO, &l2_l3);
    assert_eq!(caches.l2, PhysicalDeviceCacheProperties { size: 512 * 1024, line_size: 64 });
    assert_eq!(caches.l3, PhysicalDeviceCacheProperties { size: 16 * 1024 * 1024, line_size: 64 });
    assert_eq!(caches.l1_data, PhysicalDeviceCacheProperties::default());
    assert_eq!(caches.l1_instruction, PhysicalDeviceCacheProperties::default());
}

#[test]
fn amd_largest_l2_fits() {
    let l2_l3 = RawQueryResult { eax: 0, ebx: 0, ecx: 0xffff_00ff, edx: 0 };
    let caches = decode(&ZERO, &l2_l3);
    assert_eq!(caches.l2, PhysicalDeviceCacheProperties { size: 65535 * 1024, line_size: 255 });
}

#[test]
fn amd_largest_l3_that_fits() {
    // 8191 units of 512 KiB are one unit short of 4 GiB
    let l2_l3 = RawQueryResult { eax: 0, ebx: 0, ecx: 0, edx: (8191 << 18) | 64 };
    let caches = decode(&ZERO, &l2_l3);
    assert_eq!(caches.l3, PhysicalDeviceCacheProperties { size: 0xfff8_0000, line_size: 64 });
}

#[test]
fn amd_l3_beyond_32_bits_is_unavailable() {
    let l2_l3 = RawQueryResult { eax: 0, ebx: 0, ecx: 0, edx: (8192 << 18) | 64 };
    let caches = decode(&ZERO, &l2_l3);
    assert_eq!(caches.l3, PhysicalDeviceCacheProperties::default());
    let most = RawQueryResult { eax: 0, ebx: 0, ecx: 0, edx: 0xffff_ffff };
    assert_eq!(decode(&ZERO, &most).l3, PhysicalDeviceCacheProperties::default());
}

#[test]
fn amd_all_zero_leaves_give_no_information() {
    assert_eq!(decode(&ZERO, &ZERO), CacheHierarchy::default());
}

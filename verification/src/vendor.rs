//! The processor vendor, read from the 12-byte signature of leaf 0.

use vstd::prelude::*;
use crate::bits::bit_field;
use crate::bits::extract_bits;
use crate::cpuid::QueryAnswer;
use crate::cpuid::RawQueryResult;

verus! {

/// Device hardware vendor.
#[derive(Debug, Copy, Clone, PartialEq, Eq, Structural)]
pub enum Vendor {
    Intel,
    AMD,
    Unknown,
}

/// The bytes of the ASCII text `GenuineIntel`.
pub open spec fn intel_signature() -> Seq<u8> {
    seq![0x47u8, 0x65, 0x6e, 0x75, 0x69, 0x6e, 0x65, 0x49, 0x6e, 0x74, 0x65, 0x6c]
}

/// The bytes of the ASCII text `AuthenticAMD`.
pub open spec fn amd_signature() -> Seq<u8> {
    seq![0x41u8, 0x75, 0x74, 0x68, 0x65, 0x6e, 0x74, 0x69, 0x63, 0x41, 0x4d, 0x44]
}

/// The vendor that a signature names: the two known signatures match
/// verbatim, every other byte sequence is `Unknown`.
pub open spec fn vendor_of(signature: Seq<u8>) -> Vendor {
    if signature == intel_signature() {
        Vendor::Intel
    } else if signature == amd_signature() {
        Vendor::AMD
    } else {
        Vendor::Unknown
    }
}

/// The four bytes of a register, least significant first.
pub open spec fn register_bytes(v: u32) -> Seq<u8> {
    seq![
        bit_field(v as nat, 0, 8) as u8,
        bit_field(v as nat, 8, 16) as u8,
        bit_field(v as nat, 16, 24) as u8,
        bit_field(v as nat, 24, 32) as u8,
    ]
}

/// Leaf that holds the vendor signature.
pub const VENDOR_LEAF: u32 = 0;

/// The signature that a leaf-0 result carries: the bytes of `ebx`, then of
/// `edx`, then of `ecx`.
pub open spec fn signature_of(leaf: RawQueryResult) -> Seq<u8> {
    register_bytes(leaf.ebx) + register_bytes(leaf.edx) + register_bytes(leaf.ecx)
}

/// Splits a register into its four bytes, least significant first.
pub fn split_register(v: u32) -> (b: [u8; 4])
    ensures
        b@ == register_bytes(v),
{
    proof {
        crate::bits::lemma_bit_field_is_byte(v, 0);
        crate::bits::lemma_bit_field_is_byte(v, 8);
        crate::bits::lemma_bit_field_is_byte(v, 16);
        crate::bits::lemma_bit_field_is_byte(v, 24);
    }
    let b: [u8; 4] = [
        extract_bits(v, 0..8) as u8,
        extract_bits(v, 8..16) as u8,
        extract_bits(v, 16..24) as u8,
        extract_bits(v, 24..32) as u8,
    ];
    assert(b@ =~= register_bytes(v));
    b
}

/// Assembles the 12-byte vendor signature of a leaf-0 result.
pub fn vendor_signature(leaf: &RawQueryResult) -> (signature: [u8; 12])
    ensures
        signature@ == signature_of(*leaf),
{
    let b = split_register(leaf.ebx);
    let d = split_register(leaf.edx);
    let c = split_register(leaf.ecx);
    let signature: [u8; 12] = [
        b[0], b[1], b[2], b[3], d[0], d[1], d[2], d[3], c[0], c[1], c[2], c[3],
    ];
    assert(signature@ =~= signature_of(*leaf));
    signature
}

/// Whether two signatures hold the same bytes.
fn same_signature(a: &[u8; 12], b: &[u8; 12]) -> (same: bool)
    ensures
        same == (a@ == b@),
{
    let mut i: usize = 0;
    while i < 12
        invariant
            i <= 12,
            forall|k: int| 0 <= k < i ==> a@[k] == b@[k],
        decreases 12 - i,
    {
        if a[i] != b[i] {
            return false;
        }
        i += 1;
    }
    assert(a@ =~= b@);
    true
}

impl Vendor {
    /// Matches a 12-byte signature against the known vendor signatures.
    pub fn from_signature(signature: &[u8; 12]) -> (vendor: Vendor)
        ensures
            vendor == vendor_of(signature@),
    {
        let intel: [u8; 12] = [
            0x47, 0x65, 0x6e, 0x75, 0x69, 0x6e, 0x65, 0x49, 0x6e, 0x74, 0x65, 0x6c,
        ];
        let amd: [u8; 12] = [
            0x41, 0x75, 0x74, 0x68, 0x65, 0x6e, 0x74, 0x69, 0x63, 0x41, 0x4d, 0x44,
        ];
        assert(intel@ =~= intel_signature());
        assert(amd@ =~= amd_signature());
        if same_signature(signature, &amd) {
            Vendor::AMD
        } else if same_signature(signature, &intel) {
            Vendor::Intel
        } else {
            Vendor::Unknown
        }
    }

    /// The vendor that the answer to leaf `VENDOR_LEAF` names.
    pub fn from_leaf(leaf: &QueryAnswer) -> (vendor: Vendor)
        requires
            leaf.leaf == VENDOR_LEAF,
        ensures
            vendor == vendor_of(signature_of(leaf.registers)),
    {
        let signature = vendor_signature(&leaf.registers);
        Vendor::from_signature(&signature)
    }
}

} // verus!

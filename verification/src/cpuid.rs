//! The identification query layer: raw register values by leaf and sub-leaf.

use vstd::prelude::*;

verus! {

/// The four registers that one identification query returns.
#[derive(Debug, Clone, Copy, PartialEq, Eq, Structural)]
pub struct RawQueryResult {
    pub eax: u32,
    pub ebx: u32,
    pub ecx: u32,
    pub edx: u32,
}

/// One answered identification query: the leaf and sub-leaf that were asked
/// for, and the registers that came back. The decoders take answers, and
/// each asks for the answer to its own leaf.
#[derive(Debug, Clone, Copy, PartialEq, Eq, Structural)]
pub struct QueryAnswer {
    pub leaf: u32,
    pub sub_leaf: u32,
    pub registers: RawQueryResult,
}

/// The registers of a sequence of answers, in their order.
pub open spec fn registers_of(answers: Seq<QueryAnswer>) -> Seq<RawQueryResult> {
    Seq::new(answers.len(), |i: int| answers[i].registers)
}

/// Runs `std::arch::x86_64::__cpuid` for `leaf`, which asks for sub-leaf 0.
/// The answer records what was asked. Nothing is claimed of the registers
/// that come back: they are whatever the processor reports.
#[verifier::external_body]
pub(crate) fn query(leaf: u32) -> (answer: QueryAnswer)
    ensures
        answer.leaf == leaf,
        answer.sub_leaf == 0,
{
    let raw = std::arch::x86_64::__cpuid(leaf);
    let registers = RawQueryResult { eax: raw.eax, ebx: raw.ebx, ecx: raw.ecx, edx: raw.edx };
    QueryAnswer { leaf, sub_leaf: 0, registers }
}

/// Runs `std::arch::x86_64::__cpuid_count` for `leaf` and `sub_leaf`. The
/// answer records what was asked. Nothing is claimed of the registers that
/// come back.
#[verifier::external_body]
pub(crate) fn query_sub(leaf: u32, sub_leaf: u32) -> (answer: QueryAnswer)
    ensures
        answer.leaf == leaf,
        answer.sub_leaf == sub_leaf,
{
    let raw = std::arch::x86_64::__cpuid_count(leaf, sub_leaf);
    let registers = RawQueryResult { eax: raw.eax, ebx: raw.ebx, ecx: raw.ecx, edx: raw.edx };
    QueryAnswer { leaf, sub_leaf, registers }
}

} // verus!

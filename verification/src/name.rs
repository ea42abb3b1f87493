//! The device name of an AMD processor, spelled out over three leaves.

use vstd::prelude::*;
use crate::cpuid::registers_of;
use crate::cpuid::QueryAnswer;
use crate::cpuid::RawQueryResult;
use crate::vendor::register_bytes;
use crate::vendor::split_register;

verus! {

/// First of the three consecutive leaves that spell the device name.
pub const NAME_LEAF: u32 = 0x8000_0002;

/// `String::push` appends one character to the text.
pub assume_specification[ String::push ](text: &mut String, ch: char)
    ensures
        final(text)@ == old(text)@.push(ch),
;

/// The sixteen bytes of one result: `eax`, `ebx`, `ecx`, `edx`, each least
/// significant byte first.
pub open spec fn result_bytes(result: RawQueryResult) -> Seq<u8> {
    register_bytes(result.eax) + register_bytes(result.ebx) + register_bytes(result.ecx)
        + register_bytes(result.edx)
}

/// The 48-byte stream of the three name leaves.
pub open spec fn name_stream(leaves: Seq<RawQueryResult>) -> Seq<u8>
    recommends
        leaves.len() == 3,
{
    result_bytes(leaves[0]) + result_bytes(leaves[1]) + result_bytes(leaves[2])
}

/// The bytes in front of the first null byte; all of them where there is none.
pub open spec fn until_nul(bytes: Seq<u8>) -> Seq<u8>
    decreases bytes.len(),
{
    if bytes.len() == 0 || bytes[0] == 0 {
        Seq::empty()
    } else {
        seq![bytes[0]] + until_nul(bytes.skip(1))
    }
}

/// Whether a byte, read as a character of Latin-1, is white space: tab to
/// carriage return, space, next line, no-break space.
pub open spec fn is_whitespace(byte: u8) -> bool {
    (0x09 <= byte <= 0x0d) || byte == 0x20 || byte == 0x85 || byte == 0xa0
}

/// The bytes without the white space at their end.
pub open spec fn trim_end(bytes: Seq<u8>) -> Seq<u8>
    decreases bytes.len(),
{
    if bytes.len() > 0 && is_whitespace(bytes.last()) {
        trim_end(bytes.drop_last())
    } else {
        bytes
    }
}

/// Each byte as the character with that code point.
pub open spec fn latin1(bytes: Seq<u8>) -> Seq<char> {
    Seq::new(bytes.len(), |i: int| bytes[i] as char)
}

/// The device name that the three name leaves spell: their byte stream up to
/// the first null byte, without trailing white space.
pub open spec fn device_name(leaves: Seq<RawQueryResult>) -> Seq<char>
    recommends
        leaves.len() == 3,
{
    latin1(trim_end(until_nul(name_stream(leaves))))
}

/// `until_nul` cuts the bytes at the first null byte: what it keeps is a
/// prefix without null byte, and the byte behind it, if any, is null.
pub proof fn lemma_until_nul_is_prefix(bytes: Seq<u8>)
    ensures
        until_nul(bytes).len() <= bytes.len(),
        until_nul(bytes) == bytes.take(until_nul(bytes).len() as int),
        forall|i: int| 0 <= i < until_nul(bytes).len() ==> #[trigger] until_nul(bytes)[i] != 0,
        until_nul(bytes).len() < bytes.len() ==> bytes[until_nul(bytes).len() as int] == 0,
    decreases bytes.len(),
{
    if bytes.len() == 0 || bytes[0] == 0 {
        assert(until_nul(bytes) =~= bytes.take(0));
    } else {
        let rest = bytes.skip(1);
        lemma_until_nul_is_prefix(rest);
        let kept = until_nul(rest);
        let n = kept.len() as int;
        assert(until_nul(bytes) =~= bytes.take(n + 1)) by {
            assert(kept == rest.take(n));
            assert forall|i: int| 0 <= i < n + 1 implies (seq![bytes[0]] + kept)[i] == bytes.take(
                n + 1,
            )[i] by {
                if i > 0 {
                    assert(kept[i - 1] == rest.take(n)[i - 1]);
                }
            }
        }
        assert(n < rest.len() ==> rest[n] == bytes[n + 1]);
    }
}

/// `trim_end` removes white space from the end and nothing else: what it
/// keeps is a prefix that does not end in white space, and every byte
/// behind it is white space.
pub proof fn lemma_trim_end_is_prefix(bytes: Seq<u8>)
    ensures
        trim_end(bytes).len() <= bytes.len(),
        trim_end(bytes) == bytes.take(trim_end(bytes).len() as int),
        trim_end(bytes).len() > 0 ==> !is_whitespace(trim_end(bytes).last()),
        forall|i: int| trim_end(bytes).len() <= i < bytes.len() ==> is_whitespace(#[trigger] bytes[i]),
    decreases bytes.len(),
{
    if bytes.len() > 0 && is_whitespace(bytes.last()) {
        let front = bytes.drop_last();
        lemma_trim_end_is_prefix(front);
        let n = trim_end(front).len() as int;
        assert(front.take(n) =~= bytes.take(n));
        assert forall|i: int| n <= i < bytes.len() implies is_whitespace(#[trigger] bytes[i]) by {
            if i < front.len() {
                assert(front[i] == bytes[i]);
            }
        }
    } else {
        assert(bytes.take(bytes.len() as int) =~= bytes);
    }
}

/// A device name has at most 48 characters, none of them null, and does
/// not end in white space.
pub proof fn lemma_device_name_shape(leaves: Seq<RawQueryResult>)
    requires
        leaves.len() == 3,
    ensures
        device_name(leaves).len() <= 48,
        forall|i: int| 0 <= i < device_name(leaves).len() ==> #[trigger] device_name(leaves)[i] != '\0',
        device_name(leaves).len() > 0 ==> exists|byte: u8|
            device_name(leaves).last() == byte as char && !is_whitespace(byte),
{
    let stream = name_stream(leaves);
    let text = until_nul(stream);
    let kept = trim_end(text);
    lemma_until_nul_is_prefix(stream);
    lemma_trim_end_is_prefix(text);
    assert(stream.len() == 48);
    assert forall|i: int| 0 <= i < device_name(leaves).len() implies #[trigger] device_name(
        leaves,
    )[i] != '\0' by {
        assert(kept[i] == text.take(kept.len() as int)[i]);
        assert(text[i] != 0);
    }
    if kept.len() > 0 {
        assert(device_name(leaves).last() == kept.last() as char);
    }
}

/// Whether `byte` is white space.
fn byte_is_whitespace(byte: u8) -> (r: bool)
    ensures
        r == is_whitespace(byte),
{
    (0x09 <= byte && byte <= 0x0d) || byte == 0x20 || byte == 0x85 || byte == 0xa0
}

/// Appends the four bytes of `register` to `stream`.
fn push_register_bytes(stream: &mut Vec<u8>, register: u32)
    ensures
        final(stream)@ == old(stream)@ + register_bytes(register),
{
    let quad = split_register(register);
    stream.push(quad[0]);
    stream.push(quad[1]);
    stream.push(quad[2]);
    stream.push(quad[3]);
    assert(stream@ =~= old(stream)@ + register_bytes(register));
}

/// Appends the sixteen bytes of `result` to `stream`.
fn push_result_bytes(stream: &mut Vec<u8>, result: &RawQueryResult)
    ensures
        final(stream)@ == old(stream)@ + result_bytes(*result),
{
    push_register_bytes(stream, result.eax);
    push_register_bytes(stream, result.ebx);
    push_register_bytes(stream, result.ecx);
    push_register_bytes(stream, result.edx);
    assert(stream@ =~= old(stream)@ + result_bytes(*result));
}

/// The answers to the three name leaves, in leaf order.
pub open spec fn are_name_leaves(leaves: Seq<QueryAnswer>) -> bool {
    &&& leaves.len() == 3
    &&& leaves[0].leaf == NAME_LEAF
    &&& leaves[1].leaf == NAME_LEAF + 1
    &&& leaves[2].leaf == NAME_LEAF + 2
}

/// Decodes the device name from the answers to the three name leaves, in
/// leaf order.
pub fn decode_device_name(leaves: &[QueryAnswer; 3]) -> (name: String)
    requires
        are_name_leaves(leaves@),
    ensures
        name@ == device_name(registers_of(leaves@)),
{
    let mut stream: Vec<u8> = Vec::new();
    push_result_bytes(&mut stream, &leaves[0].registers);
    push_result_bytes(&mut stream, &leaves[1].registers);
    push_result_bytes(&mut stream, &leaves[2].registers);
    assert(stream@ =~= name_stream(registers_of(leaves@)));

    let mut text: Vec<u8> = Vec::new();
    let mut i: usize = 0;
    assert(stream@.skip(0) =~= stream@);
    while i < stream.len() && stream[i] != 0
        invariant
            i <= stream@.len(),
            until_nul(stream@) == text@ + until_nul(stream@.skip(i as int)),
        decreases stream@.len() - i,
    {
        let ghost rest = stream@.skip(i as int);
        assert(rest[0] == stream@[i as int]);
        assert(rest.skip(1) =~= stream@.skip(i + 1));
        assert(text@.push(stream@[i as int]) + until_nul(rest.skip(1)) =~= text@ + (seq![rest[0]]
            + until_nul(rest.skip(1))));
        text.push(stream[i]);
        i += 1;
    }
    assert(text@ =~= until_nul(stream@)) by {
        let rest = stream@.skip(i as int);
        assert(rest.len() > 0 ==> rest[0] == stream@[i as int]);
    }

    let ghost untrimmed = text@;
    while text.len() > 0 && byte_is_whitespace(text[text.len() - 1])
        invariant
            trim_end(text@) == trim_end(untrimmed),
        decreases text@.len(),
    {
        text.pop();
    }

    let mut name = String::new();
    let mut k: usize = 0;
    while k < text.len()
        invariant
            k <= text@.len(),
            name@ == latin1(text@.take(k as int)),
        decreases text@.len() - k,
    {
        let c: char = text[k] as char;
        name.push(c);
        assert(name@ =~= latin1(text@.take(k + 1)));
        k += 1;
    }
    assert(text@.take(k as int) =~= text@);
    name
}

} // verus!

use physical_device::cpuid::QueryAnswer;
use physical_device::cpuid::RawQueryResult;
use physical_device::name::decode_device_name;
use physical_device::name::NAME_LEAF;

fn answers(registers: [RawQueryResult; 3]) -> [QueryAnswer; 3] {
    [
        QueryAnswer { leaf: NAME_LEAF, sub_leaf: 0, registers: registers[0] },
        QueryAnswer { leaf: NAME_LEAF + 1, sub_leaf: 0, registers: registers[1] },
        QueryAnswer { leaf: NAME_LEAF + 2, sub_leaf: 0, registers: registers[2] },
    ]
}

fn leaves(stream: &[u8; 48]) -> [QueryAnswer; 3] {
    let word = |at: usize| u32::from_le_bytes([stream[at], stream[at + 1], stream[at + 2], stream[at + 3]]);
    let leaf = |at: usize| RawQueryResult {
        eax: word(at),
        ebx: word(at + 4),
        ecx: word(at + 8),
        edx: word(at + 12),
    };
    answers([leaf(0), leaf(16), leaf(32)])
}

fn stream_of(text: &[u8], fill: u8) -> [u8; 48] {
    let mut stream = [fill; 48];
    stream[..text.len()].copy_from_slice(text);
    stream
}

#[test]
fn name_leaves_start_at_the_second_extended_leaf() {
    assert_eq!(NAME_LEAF, 0x8000_0002);
}

#[test]
fn name_ends_at_the_first_null() {
    let stream = stream_of(b"AMD Ryzen 7 1700 Eight-Core Processor", 0);
    assert_eq!(decode_device_name(&leaves(&stream)), "AMD Ryzen 7 1700 Eight-Core Processor");
}

#[test]
fn name_ignores_what_follows_the_null() {
    let mut stream = stream_of(b"AMD EPYC 7B12", b'x');
    stream[13] = 0;
    assert_eq!(decode_device_name(&leaves(&stream)), "AMD EPYC 7B12");
}

#[test]
fn name_loses_trailing_spaces() {
    let mut stream = stream_of(b"AMD Ryzen 5 3600 6-Core Processor", b' ');
    stream[47] = 0;
    assert_eq!(decode_device_name(&leaves(&stream)), "AMD Ryzen 5 3600 6-Core Processor");
}

#[test]
fn name_keeps_leading_and_inner_spaces() {
    let stream = stream_of(b"  AMD   Athlon  \t\n", 0);
    assert_eq!(decode_device_name(&leaves(&stream)), "  AMD   Athlon");
}

#[test]
fn name_of_all_48_bytes() {
    let stream = *b"0123456789abcdefghijklmnopqrstuvwxyzABCDEFGHIJKL";
    assert_eq!(
        decode_device_name(&leaves(&stream)),
        "0123456789abcdefghijklmnopqrstuvwxyzABCDEFGHIJKL"
    );
}

#[test]
fn name_is_empty_where_the_stream_starts_with_null() {
    let mut stream = stream_of(b"ignored", b'y');
    stream[0] = 0;
    assert_eq!(decode_device_name(&leaves(&stream)), "");
    assert_eq!(decode_device_name(&leaves(&[0u8; 48])), "");
}

#[test]
fn name_of_white_space_only_is_empty() {
    assert_eq!(decode_device_name(&leaves(&[b' '; 48])), "");
    assert_eq!(decode_device_name(&leaves(&stream_of(b" \t\r\n\x0b\x0c", 0))), "");
}

#[test]
fn name_bytes_are_latin1_characters() {
    let stream = stream_of(b"Caf\xe9 \xb5P\xa0\x85 ", 0);
    let name = decode_device_name(&leaves(&stream));
    assert_eq!(name, "Caf\u{e9} \u{b5}P");
    assert_eq!(name.chars().count(), 7);
}

#[test]
fn name_trims_as_the_standard_library_does() {
    for b in 1..=255u8 {
        let stream = stream_of(&[b'A', b, b, 0], 0);
        let text: String = [b'A', b, b].iter().map(|&c| c as char).collect();
        assert_eq!(decode_device_name(&leaves(&stream)), text.trim_end());
    }
}

#[test]
fn name_reads_registers_in_the_order_eax_ebx_ecx_edx() {
    let first = RawQueryResult {
        eax: u32::from_le_bytes(*b"abcd"),
        ebx: u32::from_le_bytes(*b"efgh"),
        ecx: u32::from_le_bytes(*b"ijkl"),
        edx: u32::from_le_bytes(*b"mnop"),
    };
    let second = RawQueryResult { eax: u32::from_le_bytes(*b"qr\0s"), ebx: 0x4141_4141, ecx: 0, edx: 0 };
    let third = RawQueryResult { eax: 0x4242_4242, ebx: 0, ecx: 0, edx: 0 };
    assert_eq!(decode_device_name(&answers([first, second, third])), "abcdefghijklmnopqr");
}

use device_restart::decode::{decode_instance_id, decode_utf16_lossy};

fn utf16(s: &str) -> Vec<u16> {
    s.encode_utf16().collect()
}

#[test]
fn decode_empty_buffer() {
    let units: Vec<u16> = Vec::new();
    assert_eq!(decode_utf16_lossy(&units), Vec::<char>::new());
}

#[test]
fn decode_ascii_passthrough() {
    let units = utf16("PCI\\VEN_11AB&DEV_2B38");
    let chars: Vec<char> = "PCI\\VEN_11AB&DEV_2B38".chars().collect();
    assert_eq!(decode_utf16_lossy(&units), chars);
}

#[test]
fn decode_surrogate_pair() {
    let units = vec![0xD834u16, 0xDD1Eu16];
    assert_eq!(decode_utf16_lossy(&units), vec!['\u{1D11E}']);
}

#[test]
fn decode_mixed_text_and_pair() {
    let units = utf16("a\u{1D11E}b");
    assert_eq!(decode_utf16_lossy(&units), vec!['a', '\u{1D11E}', 'b']);
}

#[test]
fn decode_unpaired_high_surrogate_replaced() {
    let units = vec![0x41u16, 0xD800u16, 0x42u16];
    assert_eq!(decode_utf16_lossy(&units), vec!['A', '\u{FFFD}', 'B']);
}

#[test]
fn decode_lone_low_surrogate_replaced() {
    let units = vec![0xDC00u16];
    assert_eq!(decode_utf16_lossy(&units), vec!['\u{FFFD}']);
}

#[test]
fn decode_high_surrogate_at_end_replaced() {
    let units = vec![0x41u16, 0xD834u16];
    assert_eq!(decode_utf16_lossy(&units), vec!['A', '\u{FFFD}']);
}

#[test]
fn decode_reversed_surrogates_both_replaced() {
    let units = vec![0xDC00u16, 0xD834u16];
    assert_eq!(decode_utf16_lossy(&units), vec!['\u{FFFD}', '\u{FFFD}']);
}

#[test]
fn decode_instance_id_trims_terminator() {
    let mut units = utf16("PCI\\VEN_8086");
    units.push(0);
    let chars: Vec<char> = "PCI\\VEN_8086".chars().collect();
    assert_eq!(decode_instance_id(&units), chars);
}

#[test]
fn decode_instance_id_invalid_unit_does_not_fail() {
    let units = vec![0xD800u16, 0x41u16, 0u16];
    assert_eq!(decode_instance_id(&units), vec!['\u{FFFD}', 'A']);
}

#[test]
fn decode_instance_id_only_terminator() {
    let units = vec![0u16];
    assert_eq!(decode_instance_id(&units), Vec::<char>::new());
}

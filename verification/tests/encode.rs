use device_restart::decode::decode_utf16_lossy;
use device_restart::encode::{encode_terminated, encode_utf16};

#[test]
fn encode_empty_text() {
    assert_eq!(encode_utf16(&Vec::new()), Vec::<u16>::new());
}

#[test]
fn encode_ascii_passthrough() {
    let chars: Vec<char> = "Restarted successfully".chars().collect();
    let expected: Vec<u16> = "Restarted successfully".encode_utf16().collect();
    assert_eq!(encode_utf16(&chars), expected);
}

#[test]
fn encode_supplementary_character_as_pair() {
    assert_eq!(encode_utf16(&vec!['\u{1D11E}']), vec![0xD834u16, 0xDD1Eu16]);
}

#[test]
fn encode_terminated_appends_one_terminator() {
    assert_eq!(encode_terminated(&vec!['O', 'K']), vec![0x4Fu16, 0x4Bu16, 0u16]);
}

#[test]
fn encode_then_decode_restores_text() {
    let chars: Vec<char> = "An error has occurred:\r\n\r\n\u{1D11E} caf\u{E9}".chars().collect();
    assert_eq!(decode_utf16_lossy(&encode_utf16(&chars)), chars);
}

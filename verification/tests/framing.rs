use transition_check::envelope::{decode_envelope, encode_envelope};
use transition_check::error::CheckError;

#[test]
fn envelope_round_trip() {
    let text = "{\"unit\": {\"pre\": {}}}";
    let bytes = encode_envelope(text).unwrap();
    assert_eq!(bytes.len(), 8 + text.len());
    assert_eq!(&bytes[..8], &(text.len() as u64).to_le_bytes());
    assert_eq!(&bytes[8..], text.as_bytes());
    assert_eq!(decode_envelope(&bytes), Ok(text.to_string()));
}

#[test]
fn envelope_round_trip_beyond_ascii() {
    let text = "prüfung ✓ 試験";
    let bytes = encode_envelope(text).unwrap();
    assert_eq!(bytes.len(), 8 + text.len());
    assert_eq!(decode_envelope(&bytes), Ok(text.to_string()));
}

#[test]
fn envelope_agrees_with_bincode() {
    let text = "some text".to_string();
    assert_eq!(encode_envelope(&text), Some(bincode::serialize(&text).unwrap()));
}

#[test]
fn envelope_of_empty_text() {
    assert_eq!(encode_envelope(""), Some(vec![0u8; 8]));
    assert_eq!(decode_envelope(&[0u8; 8]), Ok(String::new()));
}

#[test]
fn envelope_ignores_trailing_bytes() {
    let mut bytes = encode_envelope("abc").unwrap();
    bytes.extend_from_slice(&[0xff, 0xfe, 0x00]);
    assert_eq!(decode_envelope(&bytes), Ok("abc".to_string()));
}

#[test]
fn envelope_too_short_is_a_decode_error() {
    assert_eq!(decode_envelope(&[]), Err(CheckError::Decode));
    assert_eq!(decode_envelope(&[3, 0, 0, 0, 0, 0, 0]), Err(CheckError::Decode));
    assert_eq!(decode_envelope(&[3, 0, 0, 0, 0, 0, 0, 0, b'a', b'b']), Err(CheckError::Decode));
    assert_eq!(decode_envelope(&[0xff; 8]), Err(CheckError::Decode));
}

#[test]
fn envelope_length_is_little_endian() {
    let mut bytes = vec![0, 1, 0, 0, 0, 0, 0, 0];
    bytes.extend(std::iter::repeat(b'x').take(256));
    assert_eq!(decode_envelope(&bytes), Ok("x".repeat(256)));
    let mut bytes = vec![1, 0, 0, 0, 0, 0, 0, 0];
    bytes.extend(std::iter::repeat(b'x').take(256));
    assert_eq!(decode_envelope(&bytes), Ok("x".to_string()));
}

#[test]
fn envelope_with_invalid_utf8_is_a_decode_error() {
    assert_eq!(decode_envelope(&[2, 0, 0, 0, 0, 0, 0, 0, 0xc3, 0x28]), Err(CheckError::Decode));
    assert_eq!(decode_envelope(&[1, 0, 0, 0, 0, 0, 0, 0, 0x80]), Err(CheckError::Decode));
}

//! The codec itself: concrete encodings, the validation errors, and the
//! round trip on concrete values.

use hexwrap::FromHexError;
use hexwrap::LOWER;
use hexwrap::UPPER;

#[test]
fn encode_concrete_lower() {
    assert_eq!(hexwrap::fast_serialize(&[0x01, 0x99, 0xff], LOWER), "0199ff");
}

#[test]
fn encode_concrete_upper() {
    assert_eq!(hexwrap::fast_serialize(&[0x01, 0x99, 0xff], UPPER), "0199FF");
}

#[test]
fn decode_mixed_case() {
    assert_eq!(hexwrap::decode("0199fF"), Ok(vec![0x01, 0x99, 0xff]));
}

#[test]
fn decode_rejects_odd_length() {
    assert_eq!(hexwrap::decode("f"), Err(FromHexError::OddLength));
}

#[test]
fn decode_rejects_invalid_character() {
    assert_eq!(
        hexwrap::decode("zz"),
        Err(FromHexError::InvalidHexCharacter { c: 'z', index: 0 })
    );
}

#[test]
fn decode_reports_first_offender() {
    assert_eq!(
        hexwrap::decode("0199fg"),
        Err(FromHexError::InvalidHexCharacter { c: 'g', index: 5 })
    );
}

#[test]
fn decode_into_rejects_capacity_mismatch() {
    assert_eq!(hexwrap::decode_into("0199ff", 4), Err(FromHexError::InvalidStringLength));
}

#[test]
fn decode_into_matching_capacity() {
    assert_eq!(hexwrap::decode_into("0199ff", 3), Ok(vec![0x01, 0x99, 0xff]));
}

#[test]
fn decode_into_checks_length_after_validity() {
    assert_eq!(hexwrap::decode_into("f", 4), Err(FromHexError::OddLength));
    assert_eq!(
        hexwrap::decode_into("zz", 1),
        Err(FromHexError::InvalidHexCharacter { c: 'z', index: 0 })
    );
}

#[test]
fn empty_input_both_ways() {
    assert_eq!(hexwrap::fast_serialize(&[], LOWER), "");
    assert_eq!(hexwrap::decode(""), Ok(vec![]));
}

#[test]
fn round_trip_concrete() {
    let bytes: Vec<u8> = vec![0x00, 0x01, 0x10, 0x7f, 0x80, 0x99, 0xab, 0xcd, 0xef, 0xff];
    let lower = hexwrap::fast_serialize(&bytes, LOWER);
    let upper = hexwrap::fast_serialize(&bytes, UPPER);
    assert_eq!(hexwrap::decode(&lower), Ok(bytes.clone()));
    assert_eq!(hexwrap::decode(&upper), Ok(bytes));
}

#[test]
fn decode_case_invariance_concrete() {
    let text = "0199fF";
    assert_eq!(hexwrap::decode(text), hexwrap::decode(&text.to_uppercase()));
    assert_eq!(hexwrap::decode(text), hexwrap::decode(&text.to_lowercase()));
}

#[test]
fn encode_length_is_twice_input_length() {
    for n in 0..40 {
        let bytes: Vec<u8> = (0..n).map(|i| (i * 11) as u8).collect();
        assert_eq!(hexwrap::fast_serialize(&bytes, LOWER).len(), 2 * bytes.len());
    }
}

#[test]
fn byte2hex_concrete() {
    assert_eq!(hexwrap::byte2hex(0x01, LOWER), (b'0', b'1'));
    assert_eq!(hexwrap::byte2hex(0x99, LOWER), (b'9', b'9'));
    assert_eq!(hexwrap::byte2hex(0xff, LOWER), (b'f', b'f'));
    assert_eq!(hexwrap::byte2hex(0xff, UPPER), (b'F', b'F'));
    assert_eq!(hexwrap::byte2hex(0xa0, UPPER), (b'A', b'0'));
}

#[test]
fn deserialize_matches_decode() {
    assert_eq!(hexwrap::deserialize("0199ff"), Ok(vec![0x01, 0x99, 0xff]));
    assert_eq!(hexwrap::deserialize("abc"), Err(FromHexError::OddLength));
}

#[test]
fn serialize_is_lowercase_and_upper_is_uppercase() {
    let bytes: Vec<u8> = vec![0xde, 0xad, 0xbe, 0xef];
    assert_eq!(hexwrap::serialize(&bytes), "deadbeef");
    assert_eq!(hexwrap::serialize_upper(&bytes), "DEADBEEF");
}

//! The wrapper types: construction, conversion and equality.

use hexwrap::Hex;
use hexwrap::HexExt;
use hexwrap::UpperHex;

#[test]
fn into_hex_wraps_the_value() {
    let hex: Hex<Vec<u8>> = vec![1_u8, 0x99, 0xff].into_hex();
    assert_eq!(hex, Hex(vec![1_u8, 0x99, 0xff]));
    assert_eq!(hex.0, vec![1_u8, 0x99, 0xff]);
}

#[test]
fn into_upper_hex_wraps_the_value() {
    let hex: UpperHex<Vec<u8>> = vec![1_u8, 0x99, 0xff].into_upper_hex();
    assert_eq!(hex, UpperHex(vec![1_u8, 0x99, 0xff]));
}

#[test]
fn from_wraps_the_value() {
    let hex: Hex<Vec<u8>> = Hex::from(vec![1_u8, 0x99, 0xff]);
    assert_eq!(hex, Hex(vec![1_u8, 0x99, 0xff]));
    let upper: UpperHex<[u8; 3]> = UpperHex::from([1_u8, 0x99, 0xff]);
    assert_eq!(upper, UpperHex([1_u8, 0x99, 0xff]));
}

#[test]
fn default_is_wrapped_default() {
    let hex: Hex<Vec<u8>> = Hex::default();
    assert_eq!(hex, Hex(Vec::new()));
}

#[test]
fn from_str_parses_either_case() {
    let hex = Hex::<Vec<u8>>::from_str("0199fF").unwrap();
    assert_eq!(hex, Hex(vec![1_u8, 0x99, 0xff]));
    let upper = UpperHex::<Vec<u8>>::from_str("0199fF").unwrap();
    assert_eq!(upper, UpperHex(vec![1_u8, 0x99, 0xff]));
    assert_eq!(
        Hex::<Vec<u8>>::from_str("f"),
        Err(hexwrap::FromHexError::OddLength)
    );
}

#[test]
fn wrapper_rendering_follows_case() {
    let lower = Hex(vec![0xab_u8, 0xcd]);
    let upper = UpperHex(vec![0xab_u8, 0xcd]);
    assert_eq!(lower.hex_string(), "abcd");
    assert_eq!(upper.hex_string(), "ABCD");
}

//! Reading hex-encoded fields out of JSON documents: the decoder behind a
//! JSON reader accepts lower, upper and mixed case.

use hexwrap::Hex;
use hexwrap::UpperHex;

/// Pulls the "data" string out of a JSON document and decodes it.
fn from_json(data: &str) -> Vec<u8> {
    let doc: serde_json::Value = serde_json::from_str(data).unwrap();
    let text = doc.get("data").unwrap().as_str().unwrap();
    hexwrap::deserialize(text).unwrap()
}

#[test]
fn test_from_lower() {
    let hex: Hex<Vec<u8>> = Hex(from_json(r#"{"data":"0199ff"}"#));
    assert_eq!(hex, Hex(vec![1_u8, 0x99, 0xff]));
}

#[test]
fn test_from_upper() {
    let hex: Hex<Vec<u8>> = Hex(from_json(r#"{"data":"0199FF"}"#));
    assert_eq!(hex, Hex(vec![1_u8, 0x99, 0xff]));
}

#[test]
fn test_from_mixed() {
    let hex: Hex<Vec<u8>> = Hex(from_json(r#"{"data":"0199fF"}"#));
    assert_eq!(hex, Hex(vec![1_u8, 0x99, 0xff]));
}

#[test]
fn test_upper_from_lower() {
    let hex: UpperHex<Vec<u8>> = UpperHex(from_json(r#"{"data":"0199ff"}"#));
    assert_eq!(hex, UpperHex(vec![1_u8, 0x99, 0xff]));
}

#[test]
fn test_upper_from_upper() {
    let hex: UpperHex<Vec<u8>> = UpperHex(from_json(r#"{"data":"0199FF"}"#));
    assert_eq!(hex, UpperHex(vec![1_u8, 0x99, 0xff]));
}

#[test]
fn test_upper_from_mixed() {
    let hex: UpperHex<Vec<u8>> = UpperHex(from_json(r#"{"data":"0199fF"}"#));
    assert_eq!(hex, UpperHex(vec![1_u8, 0x99, 0xff]));
}

//! The decoder: hexadecimal text back to bytes, with validation.

use vstd::prelude::*;
use vstd::string::StringSliceAdditionalSpecFns;

verus! {

/// The ways decoding can fail. Encoding never fails.
#[derive(Clone, Copy, Debug, PartialEq, Eq, Structural)]
pub enum FromHexError {
    /// A character outside `0-9`, `a-f`, `A-F` was found, reported with its
    /// position.
    InvalidHexCharacter { c: char, index: usize },
    /// The input held an odd number of characters; two are needed per byte.
    OddLength,
    /// The decoded byte count did not match a fixed-capacity target.
    InvalidStringLength,
}

/// Whether a byte is the ASCII code of a hex digit, in either case.
pub open spec fn is_hex_digit(b: u8) -> bool {
    ||| '0' as u8 <= b <= '9' as u8
    ||| 'a' as u8 <= b <= 'f' as u8
    ||| 'A' as u8 <= b <= 'F' as u8
}

/// The nibble value of a hex digit byte; case-insensitive.
pub open spec fn hex_digit_value(b: u8) -> u8
    recommends
        is_hex_digit(b),
{
    if '0' as u8 <= b <= '9' as u8 {
        (b - '0' as u8) as u8
    } else if 'a' as u8 <= b <= 'f' as u8 {
        (b - 'a' as u8 + 10) as u8
    } else {
        (b - 'A' as u8 + 10) as u8
    }
}

/// Whether every byte of the input is a hex digit.
pub open spec fn all_hex_digits(data: Seq<u8>) -> bool {
    forall|i: int| 0 <= i < data.len() ==> is_hex_digit(#[trigger] data[i])
}

/// The position of the first byte that is not a hex digit; the input's
/// length when every byte is one.
pub open spec fn first_invalid_index(data: Seq<u8>) -> int
    decreases data.len(),
{
    if data.len() == 0 {
        0
    } else if !is_hex_digit(data[0]) {
        0
    } else {
        1 + first_invalid_index(data.drop_first())
    }
}

/// When the input is not all hex digits, `first_invalid_index` points at
/// the first offender: everything before it is a hex digit, it is not.
pub proof fn lemma_first_invalid_index(data: Seq<u8>)
    requires
        !all_hex_digits(data),
    ensures
        0 <= first_invalid_index(data) < data.len(),
        !is_hex_digit(data[first_invalid_index(data)]),
        forall|k: int| 0 <= k < first_invalid_index(data) ==> is_hex_digit(#[trigger] data[k]),
    decreases data.len(),
{
    if data.len() == 0 {
        assert(all_hex_digits(data));
    } else if !is_hex_digit(data[0]) {
    } else {
        let rest = data.drop_first();
        assert(!all_hex_digits(rest)) by {
            if all_hex_digits(rest) {
                assert forall|i: int| 0 <= i < data.len() implies is_hex_digit(#[trigger] data[i]) by {
                    if i > 0 {
                        assert(data[i] == rest[i - 1]);
                    }
                }
            }
        }
        lemma_first_invalid_index(rest);
        let j = first_invalid_index(data);
        assert(data[j] == rest[j - 1]);
        assert forall|k: int| 0 <= k < j implies is_hex_digit(#[trigger] data[k]) by {
            if k > 0 {
                assert(data[k] == rest[k - 1]);
            }
        }
    }
}

/// The bytes decoded from hex digit bytes: each output byte is built from a
/// pair of digits, high nibble first.
pub open spec fn spec_decode_bytes(data: Seq<u8>) -> Seq<u8>
    recommends
        data.len() % 2 == 0,
        all_hex_digits(data),
{
    Seq::new((data.len() / 2) as nat, |i: int|
        (hex_digit_value(data[2 * i]) * 16 + hex_digit_value(data[2 * i + 1])) as u8)
}

/// What decoding a hex input yields: the validation steps in order, then
/// the decoded bytes. The first failing check decides the error.
pub open spec fn spec_hex_decode(data: Seq<u8>) -> Result<Seq<u8>, FromHexError> {
    if data.len() % 2 != 0 {
        Err(FromHexError::OddLength)
    } else if !all_hex_digits(data) {
        let j = first_invalid_index(data);
        Err(FromHexError::InvalidHexCharacter { c: data[j] as char, index: j as usize })
    } else {
        Ok(spec_decode_bytes(data))
    }
}

/// Relies on hex::decode_to_slice: handed a buffer of exactly half the
/// input's byte length, it fills the buffer with the decoded bytes when
/// every input byte is a hex digit, and otherwise reports the first byte
/// that is not one, as a character, with its position.
#[verifier::external_body]
fn decode_str_to_buf(v: &str, buf: &mut Vec<u8>) -> (r: Result<(), FromHexError>)
    requires
        2 * old(buf)@.len() == v.spec_bytes().len(),
    ensures
        final(buf)@.len() == old(buf)@.len(),
        match r {
            Ok(()) => all_hex_digits(v.spec_bytes()) && final(buf)@ == spec_decode_bytes(v.spec_bytes()),
            Err(e) => {
                &&& !all_hex_digits(v.spec_bytes())
                &&& e == (FromHexError::InvalidHexCharacter {
                    c: v.spec_bytes()[first_invalid_index(v.spec_bytes())] as char,
                    index: first_invalid_index(v.spec_bytes()) as usize,
                })
            },
        },
{
    match hex::decode_to_slice(v, buf.as_mut_slice()) {
        Ok(()) => Ok(()),
        Err(hex::FromHexError::InvalidHexCharacter { c, index }) => {
            Err(FromHexError::InvalidHexCharacter { c, index })
        },
        Err(hex::FromHexError::OddLength) => Err(FromHexError::OddLength),
        Err(hex::FromHexError::InvalidStringLength) => Err(FromHexError::InvalidStringLength),
    }
}

/// Decodes hex text into fresh bytes: rejects an odd-length input, then an
/// input with a character outside the hex alphabet, and otherwise returns
/// the bytes the pairs of digits spell.
pub fn fast_deserialize(v: &str) -> (r: Result<Vec<u8>, FromHexError>)
    ensures
        r is Ok <==> spec_hex_decode(v.spec_bytes()) is Ok,
        r is Ok ==> r->Ok_0@ == spec_hex_decode(v.spec_bytes())->Ok_0,
        r is Err ==> r->Err_0 == spec_hex_decode(v.spec_bytes())->Err_0,
{
    let data = v.as_bytes();
    if data.len() % 2 != 0 {
        return Err(FromHexError::OddLength);
    }
    let byte_len = data.len() / 2;
    let mut buf: Vec<u8> = zero_vec(byte_len);
    match decode_str_to_buf(v, &mut buf) {
        Ok(()) => Ok(buf),
        Err(e) => {
            proof {
                lemma_first_invalid_index(v.spec_bytes());
            }
            Err(e)
        },
    }
}

/// A zero-filled scratch buffer of the asked-for length.
fn zero_vec(n: usize) -> (r: Vec<u8>)
    ensures
        r@.len() == n,
{
    let mut r: Vec<u8> = Vec::with_capacity(n);
    while r.len() < n
        invariant
            r@.len() <= n,
        decreases n - r@.len(),
    {
        r.push(0);
    }
    r
}

/// Decodes hex text, then holds the byte count against a fixed capacity:
/// a count other than `len` is rejected as `InvalidStringLength`.
pub fn fast_deserialize_into(v: &str, len: usize) -> (r: Result<Vec<u8>, FromHexError>)
    ensures
        match spec_hex_decode(v.spec_bytes()) {
            Ok(bytes) => {
                if bytes.len() == len {
                    r matches Ok(out) && out@ == bytes
                } else {
                    r == Err::<Vec<u8>, FromHexError>(FromHexError::InvalidStringLength)
                }
            },
            Err(e) => r == Err::<Vec<u8>, FromHexError>(e),
        },
{
    match fast_deserialize(v) {
        Ok(bytes) => {
            if bytes.len() == len {
                Ok(bytes)
            } else {
                Err(FromHexError::InvalidStringLength)
            }
        },
        Err(e) => Err(e),
    }
}

/// Decodes a hex string to a byte container of exactly `len` bytes.
///
/// This accepts both lower and upper case strings.
pub fn decode_into(v: &str, len: usize) -> (r: Result<Vec<u8>, FromHexError>)
    ensures
        match spec_hex_decode(v.spec_bytes()) {
            Ok(bytes) => {
                if bytes.len() == len {
                    r matches Ok(out) && out@ == bytes
                } else {
                    r == Err::<Vec<u8>, FromHexError>(FromHexError::InvalidStringLength)
                }
            },
            Err(e) => r == Err::<Vec<u8>, FromHexError>(e),
        },
{
    fast_deserialize_into(v, len)
}

/// Decodes a hex string to bytes.
///
/// This accepts both lower and upper case strings.
pub fn decode(v: &str) -> (r: Result<Vec<u8>, FromHexError>)
    ensures
        r is Ok <==> spec_hex_decode(v.spec_bytes()) is Ok,
        r is Ok ==> r->Ok_0@ == spec_hex_decode(v.spec_bytes())->Ok_0,
        r is Err ==> r->Err_0 == spec_hex_decode(v.spec_bytes())->Err_0,
{
    fast_deserialize(v)
}

} // verus!

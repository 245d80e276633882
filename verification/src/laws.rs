//! The laws the codec obeys, proved once and for all inputs.

use vstd::prelude::*;
use vstd::utf8::encode_utf8;
use vstd::utf8::is_ascii_chars;
use vstd::utf8::is_ascii_chars_encode_utf8;

use crate::decode::FromHexError;
use crate::decode::all_hex_digits;
use crate::decode::hex_digit_value;
use crate::decode::is_hex_digit;
use crate::decode::spec_decode_bytes;
use crate::decode::spec_hex_decode;
use crate::encode::high_nibble;
use crate::encode::low_nibble;
use crate::encode::spec_encode;
use crate::encode::spec_encode_bytes;
use crate::encode::spec_hex_digit;

verus! {

/// Law: encoding yields exactly two characters per input byte.
pub proof fn lemma_encode_length(b: Seq<u8>, upper: bool)
    ensures
        spec_encode(b, upper).len() == 2 * b.len(),
        spec_encode_bytes(b, upper).len() == 2 * b.len(),
{
}

/// Every byte of an encoding is a hex digit.
pub proof fn lemma_encode_bytes_hex_digits(b: Seq<u8>, upper: bool)
    ensures
        all_hex_digits(spec_encode_bytes(b, upper)),
{
    assert forall|i: int| 0 <= i < spec_encode_bytes(b, upper).len()
        implies is_hex_digit(#[trigger] spec_encode_bytes(b, upper)[i]) by {
        let x = b[i / 2];
        assert(high_nibble(x) < 16 && low_nibble(x) < 16);
    }
}

/// The UTF-8 bytes of an encoding are the encoding's ASCII bytes.
pub proof fn lemma_encode_utf8_bytes(b: Seq<u8>, upper: bool)
    ensures
        encode_utf8(spec_encode(b, upper)) == spec_encode_bytes(b, upper),
{
    let chars = spec_encode(b, upper);
    let bytes = spec_encode_bytes(b, upper);
    assert(is_ascii_chars(chars)) by {
        assert forall|i: int| 0 <= i < chars.len()
            implies '\0' <= #[trigger] chars[i] <= '\u{7f}' by {
            let x = b[i / 2];
            assert(high_nibble(x) < 16 && low_nibble(x) < 16);
            assert(bytes[i] < 128);
        }
    }
    is_ascii_chars_encode_utf8(chars);
    assert(encode_utf8(chars) =~= bytes);
}

/// Law: round trip. Decoding the text that encoding produced, in either
/// case, gives back exactly the bytes that were encoded.
pub proof fn lemma_round_trip(b: Seq<u8>, upper: bool)
    ensures
        spec_hex_decode(encode_utf8(spec_encode(b, upper))) == Ok::<Seq<u8>, FromHexError>(b),
        spec_hex_decode(spec_encode_bytes(b, upper)) == Ok::<Seq<u8>, FromHexError>(b),
{
    let bytes = spec_encode_bytes(b, upper);
    lemma_encode_utf8_bytes(b, upper);
    lemma_encode_bytes_hex_digits(b, upper);
    assert(spec_decode_bytes(bytes) =~= b) by {
        assert forall|i: int| 0 <= i < b.len() implies spec_decode_bytes(bytes)[i] == b[i] by {
            let x = b[i];
            assert(high_nibble(x) < 16 && low_nibble(x) < 16);
            assert(bytes[2 * i] == spec_hex_digit(high_nibble(x), upper));
            assert(bytes[2 * i + 1] == spec_hex_digit(low_nibble(x), upper));
            assert(hex_digit_value(bytes[2 * i]) == high_nibble(x));
            assert(hex_digit_value(bytes[2 * i + 1]) == low_nibble(x));
            assert(high_nibble(x) * 16 + low_nibble(x) == x) by {
                assert(x == 16 * (x / 16) + x % 16);
            }
        }
    }
}

/// The image of hex text bytes under ASCII uppercasing: letters `a-z`
/// become `A-Z`, all else stays.
pub open spec fn spec_ascii_to_upper(data: Seq<u8>) -> Seq<u8> {
    data.map_values(|b: u8|
        if 'a' as u8 <= b <= 'z' as u8 {
            (b - ('a' as u8 - 'A' as u8)) as u8
        } else {
            b
        })
}

/// The image of hex text bytes under ASCII lowercasing: letters `A-Z`
/// become `a-z`, all else stays.
pub open spec fn spec_ascii_to_lower(data: Seq<u8>) -> Seq<u8> {
    data.map_values(|b: u8|
        if 'A' as u8 <= b <= 'Z' as u8 {
            (b + ('a' as u8 - 'A' as u8)) as u8
        } else {
            b
        })
}

/// Law: case invariance of decoding. On text made of hex digits, decoding
/// the uppercased text and decoding the lowercased text both give exactly
/// what decoding the text itself gives.
pub proof fn lemma_decode_case_invariance(data: Seq<u8>)
    requires
        all_hex_digits(data),
    ensures
        spec_hex_decode(spec_ascii_to_upper(data)) == spec_hex_decode(data),
        spec_hex_decode(spec_ascii_to_lower(data)) == spec_hex_decode(data),
{
    let up = spec_ascii_to_upper(data);
    let low = spec_ascii_to_lower(data);
    assert forall|i: int| 0 <= i < data.len()
        implies is_hex_digit(#[trigger] up[i]) && hex_digit_value(up[i])
            == hex_digit_value(data[i]) by {
        assert(is_hex_digit(data[i]));
    }
    assert forall|i: int| 0 <= i < data.len()
        implies is_hex_digit(#[trigger] low[i]) && hex_digit_value(low[i])
            == hex_digit_value(data[i]) by {
        assert(is_hex_digit(data[i]));
    }
    lemma_decode_case_map(data, up);
    lemma_decode_case_map(data, low);
}

/// Decoding ignores a case change: a byte-for-byte recasing of hex digits
/// decodes to the same outcome.
proof fn lemma_decode_case_map(data: Seq<u8>, other: Seq<u8>)
    requires
        all_hex_digits(data),
        other.len() == data.len(),
        forall|i: int| 0 <= i < data.len()
            ==> is_hex_digit(#[trigger] other[i]) && hex_digit_value(other[i])
                == hex_digit_value(data[i]),
    ensures
        spec_hex_decode(other) == spec_hex_decode(data),
{
    if data.len() % 2 == 0 {
        assert(spec_decode_bytes(other) =~= spec_decode_bytes(data));
    }
}

} // verus!

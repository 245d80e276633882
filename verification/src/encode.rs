//! The encoder: bytes to hexadecimal text.

use vstd::prelude::*;

verus! {

/// The high nibble of a byte.
pub open spec fn high_nibble(b: u8) -> u8 {
    (b / 16) as u8
}

/// The low nibble of a byte.
pub open spec fn low_nibble(b: u8) -> u8 {
    (b % 16) as u8
}

/// The ASCII byte of the hex digit for a nibble value, in the chosen case.
pub open spec fn spec_hex_digit(nibble: u8, upper: bool) -> u8
    recommends
        nibble < 16,
{
    if nibble < 10 {
        ('0' as u8 + nibble) as u8
    } else if upper {
        ('A' as u8 + (nibble - 10)) as u8
    } else {
        ('a' as u8 + (nibble - 10)) as u8
    }
}

/// The hex encoding of a byte sequence, as ASCII bytes: byte `i` maps to
/// the digit of its high nibble at position `2 * i` and the digit of its
/// low nibble at position `2 * i + 1`.
pub open spec fn spec_encode_bytes(b: Seq<u8>, upper: bool) -> Seq<u8> {
    Seq::new(2 * b.len(), |i: int|
        if i % 2 == 0 {
            spec_hex_digit(high_nibble(b[i / 2]), upper)
        } else {
            spec_hex_digit(low_nibble(b[i / 2]), upper)
        })
}

/// The hex encoding of a byte sequence, as text.
pub open spec fn spec_encode(b: Seq<u8>, upper: bool) -> Seq<char> {
    spec_encode_bytes(b, upper).map_values(|d: u8| d as char)
}

/// The two hex digits of one byte, as ASCII bytes: first the high nibble,
/// then the low nibble.
pub fn byte2hex(byte: u8, upper: bool) -> (r: (u8, u8))
    ensures
        r.0 == spec_hex_digit(high_nibble(byte), upper),
        r.1 == spec_hex_digit(low_nibble(byte), upper),
{
    proof {
        assert((byte >> 4) == byte / 16 && (byte & 0x0f) == byte % 16) by (bit_vector);
    }
    let high_val: u8 = byte >> 4;
    let low_val: u8 = byte & 0x0f;
    (hex_digit(high_val, upper), hex_digit(low_val, upper))
}

/// The hex digit for a nibble value, as an ASCII byte.
fn hex_digit(nibble: u8, upper: bool) -> (r: u8)
    requires
        nibble < 16,
    ensures
        r == spec_hex_digit(nibble, upper),
{
    if nibble < 10 {
        '0' as u8 + nibble
    } else if upper {
        'A' as u8 + (nibble - 10)
    } else {
        'a' as u8 + (nibble - 10)
    }
}

/// Every byte of an encoding is an ASCII byte.
pub proof fn lemma_encode_bytes_ascii(b: Seq<u8>, upper: bool)
    ensures
        forall|i: int| 0 <= i < spec_encode_bytes(b, upper).len()
            ==> #[trigger] spec_encode_bytes(b, upper)[i] < 128,
{
}

/// Relies on String::from_utf8: ASCII bytes are valid UTF-8, and decode to
/// the characters with the same values.
#[verifier::external_body]
fn string_from_ascii(v: Vec<u8>) -> (r: String)
    requires
        forall|i: int| 0 <= i < v@.len() ==> v@[i] < 128,
    ensures
        r@ == v@.map_values(|b: u8| b as char),
{
    match String::from_utf8(v) {
        Ok(s) => s,
        Err(_) => String::new(),
    }
}

/// Writes the two hex digits of each input byte, high nibble first, into a
/// fresh buffer of exactly twice the input's length.
fn encode_digits(v: &[u8], upper: bool) -> (out: Vec<u8>)
    requires
        2 * v@.len() <= usize::MAX,
    ensures
        out@ == spec_encode_bytes(v@, upper),
{
    let mut out: Vec<u8> = Vec::with_capacity(2 * v.len());
    let mut i: usize = 0;
    while i < v.len()
        invariant
            i <= v@.len(),
            2 * v@.len() <= usize::MAX,
            out@ == spec_encode_bytes(v@.take(i as int), upper),
        decreases v@.len() - i,
    {
        let (high, low) = byte2hex(v[i], upper);
        out.push(high);
        out.push(low);
        proof {
            assert(out@ =~= spec_encode_bytes(v@.take(i + 1 as int), upper));
        }
        i = i + 1;
    }
    proof {
        assert(v@.take(i as int) =~= v@);
    }
    out
}

/// Encodes a byte sequence as hex text in the chosen case. The output holds
/// two digits for each input byte, high nibble first.
pub fn fast_serialize(v: &[u8], upper: bool) -> (r: String)
    requires
        2 * v@.len() <= usize::MAX,
    ensures
        r@ == spec_encode(v@, upper),
{
    let out = encode_digits(v, upper);
    proof {
        lemma_encode_bytes_ascii(v@, upper);
    }
    string_from_ascii(out)
}

} // verus!

//! Byte-sequence wrappers with a hexadecimal text representation.
//!
//! The core is a codec: an encoder that turns bytes into hex text in a
//! chosen case, and a decoder that validates hex text and turns it back
//! into bytes. The wrapper types [`Hex`] and [`UpperHex`] carry a byte
//! container and render it through that codec.

use vstd::prelude::*;

mod decode;
mod deserialize;
mod encode;
mod fmt;
mod from_str;
mod laws;
mod serialize;

pub use decode::FromHexError;
pub use decode::all_hex_digits;
pub use decode::decode;
pub use decode::decode_into;
pub use decode::first_invalid_index;
pub use decode::hex_digit_value;
pub use decode::is_hex_digit;
pub use decode::lemma_first_invalid_index;
pub use decode::spec_decode_bytes;
pub use decode::spec_hex_decode;
pub use deserialize::deserialize;
pub use encode::byte2hex;
pub use encode::fast_serialize;
pub use encode::high_nibble;
pub use encode::low_nibble;
pub use encode::spec_encode;
pub use encode::spec_encode_bytes;
pub use encode::spec_hex_digit;
pub use laws::lemma_decode_case_invariance;
pub use laws::lemma_encode_bytes_hex_digits;
pub use laws::lemma_encode_length;
pub use laws::lemma_encode_utf8_bytes;
pub use laws::lemma_round_trip;
pub use laws::spec_ascii_to_lower;
pub use laws::spec_ascii_to_upper;
pub use serialize::serialize;
pub use serialize::serialize_upper;

verus! {

// Named case flags, to make the usage of bools easier to read.
pub const LOWER: bool = false;

pub const UPPER: bool = true;

/// Lowercase hex of bytes `T`.
///
/// This is a simple wrapper around a sequence of bytes `T` that will be
/// rendered and read back as a lowercase hexadecimal string.
#[derive(Clone, Copy, Debug, PartialEq, Eq, PartialOrd, Ord, Hash, Default)]
pub struct Hex<T>(pub T);

/// Uppercase hex of bytes `T`.
///
/// This is a simple wrapper around a sequence of bytes `T` that will be
/// rendered and read back as an uppercase hexadecimal string.
#[derive(Clone, Copy, Debug, PartialEq, Eq, PartialOrd, Ord, Hash, Default)]
pub struct UpperHex<T>(pub T);

impl<T> From<T> for Hex<T> {
    fn from(value: T) -> (r: Self)
        ensures
            r == (Hex(value)),
    {
        Hex(value)
    }
}

impl<T> vstd::std_specs::convert::FromSpecImpl<T> for Hex<T> {
    open spec fn obeys_from_spec() -> bool {
        true
    }

    open spec fn from_spec(value: T) -> Self {
        Hex(value)
    }
}

impl<T> From<T> for UpperHex<T> {
    fn from(value: T) -> (r: Self)
        ensures
            r == (UpperHex(value)),
    {
        UpperHex(value)
    }
}

impl<T> vstd::std_specs::convert::FromSpecImpl<T> for UpperHex<T> {
    open spec fn obeys_from_spec() -> bool {
        true
    }

    open spec fn from_spec(value: T) -> Self {
        UpperHex(value)
    }
}

/// Extension trait to make it more convenient to wrap byte sequence types
/// with `Hex` and `UpperHex`. All methods this provides are also available
/// via `From` implementations for `Hex` and `UpperHex`.
pub trait HexExt: Sized {
    /// Wraps the value for lowercase hex rendering.
    fn into_hex(self) -> (r: Hex<Self>)
        ensures
            r == (Hex(self)),
    ;

    /// Wraps the value for uppercase hex rendering.
    fn into_upper_hex(self) -> (r: UpperHex<Self>)
        ensures
            r == (UpperHex(self)),
    ;
}

impl<T> HexExt for T {
    fn into_hex(self) -> (r: Hex<Self>) {
        Hex(self)
    }

    fn into_upper_hex(self) -> (r: UpperHex<Self>) {
        UpperHex(self)
    }
}

} // verus!

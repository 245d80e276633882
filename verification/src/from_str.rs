//! Parsing hex text straight into the wrapper types.

use vstd::prelude::*;
use vstd::string::StringSliceAdditionalSpecFns;

use crate::Hex;
use crate::UpperHex;
use crate::decode::FromHexError;
use crate::decode::fast_deserialize;
use crate::decode::spec_hex_decode;

verus! {

impl Hex<Vec<u8>> {
    /// Parses hex text, in either case, into a wrapped byte buffer.
    pub fn from_str(s: &str) -> (r: Result<Self, FromHexError>)
        ensures
            match spec_hex_decode(s.spec_bytes()) {
                Ok(bytes) => r matches Ok(h) && h.0@ == bytes,
                Err(e) => r == Err::<Self, FromHexError>(e),
            },
    {
        match fast_deserialize(s) {
            Ok(bytes) => Ok(Hex(bytes)),
            Err(e) => Err(e),
        }
    }
}

impl UpperHex<Vec<u8>> {
    /// Parses hex text, in either case, into a wrapped byte buffer.
    pub fn from_str(s: &str) -> (r: Result<Self, FromHexError>)
        ensures
            match spec_hex_decode(s.spec_bytes()) {
                Ok(bytes) => r matches Ok(h) && h.0@ == bytes,
                Err(e) => r == Err::<Self, FromHexError>(e),
            },
    {
        match fast_deserialize(s) {
            Ok(bytes) => Ok(UpperHex(bytes)),
            Err(e) => Err(e),
        }
    }
}

} // verus!

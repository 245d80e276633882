//! The reading half of the serialization glue: turning the hex text found
//! on the wire back into bytes. A caller that read a string hands it over
//! and reports any error as its framework's invalid-value error.

use vstd::prelude::*;
use vstd::string::StringSliceAdditionalSpecFns;

use crate::decode::FromHexError;
use crate::decode::fast_deserialize;
use crate::decode::spec_hex_decode;

verus! {

/// Deserialize function for a hex string. Can handle the output of either
/// `Hex` or `UpperHex`, or any mixture of cases.
pub fn deserialize(v: &str) -> (r: Result<Vec<u8>, FromHexError>)
    ensures
        r is Ok <==> spec_hex_decode(v.spec_bytes()) is Ok,
        r is Ok ==> r->Ok_0@ == spec_hex_decode(v.spec_bytes())->Ok_0,
        r is Err ==> r->Err_0 == spec_hex_decode(v.spec_bytes())->Err_0,
{
    fast_deserialize(v)
}

} // verus!

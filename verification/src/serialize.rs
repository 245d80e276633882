//! The writing half of the serialization glue: the hex text that stands for
//! a byte sequence on the wire. A caller hands this text to whatever writes
//! strings.

use vstd::prelude::*;

use crate::LOWER;
use crate::UPPER;
use crate::encode::fast_serialize;
use crate::encode::spec_encode;

verus! {

/// Serialize function for a hex string: the wire text of `value`, as lower
/// case hex.
pub fn serialize(value: &[u8]) -> (r: String)
    requires
        2 * value@.len() <= usize::MAX,
    ensures
        r@ == spec_encode(value@, LOWER),
{
    fast_serialize(value, LOWER)
}

/// Serialize function for a hex string: the wire text of `value`, as upper
/// case hex.
pub fn serialize_upper(value: &[u8]) -> (r: String)
    requires
        2 * value@.len() <= usize::MAX,
    ensures
        r@ == spec_encode(value@, UPPER),
{
    fast_serialize(value, UPPER)
}

} // verus!

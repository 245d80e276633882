//! The human-readable renderings of the wrappers: default, debug (quoted),
//! forced-lowercase and forced-uppercase, all backed by the encoder.

use vstd::prelude::*;

use crate::Hex;
use crate::UpperHex;
use crate::LOWER;
use crate::UPPER;
use crate::encode::fast_serialize;
use crate::encode::spec_encode;
use vstd::string::StringExecFns;

verus! {

/// Hex text of the bytes, wrapped in double quotes.
fn quoted_hex(v: &[u8], upper: bool) -> (r: String)
    requires
        2 * v@.len() <= usize::MAX,
    ensures
        r@ == seq!['"'] + spec_encode(v@, upper) + seq!['"'],
{
    proof {
        reveal_strlit("\"");
    }
    let mut s = String::from_str("\"");
    let h = fast_serialize(v, upper);
    s.append(h.as_str());
    s.append("\"");
    proof {
        assert(s@ =~= seq!['"'] + spec_encode(v@, upper) + seq!['"']);
    }
    s
}

impl Hex<Vec<u8>> {
    /// The default rendering: lowercase hex text.
    pub fn hex_string(&self) -> (r: String)
        requires
            2 * self.0@.len() <= usize::MAX,
        ensures
            r@ == spec_encode(self.0@, LOWER),
    {
        fast_serialize(self.0.as_slice(), LOWER)
    }

    /// The debug rendering: the default rendering wrapped in double quotes.
    pub fn debug_string(&self) -> (r: String)
        requires
            2 * self.0@.len() <= usize::MAX,
        ensures
            r@ == seq!['"'] + spec_encode(self.0@, LOWER) + seq!['"'],
    {
        quoted_hex(self.0.as_slice(), LOWER)
    }

    /// The forced-lowercase rendering.
    pub fn lower_hex_string(&self) -> (r: String)
        requires
            2 * self.0@.len() <= usize::MAX,
        ensures
            r@ == spec_encode(self.0@, LOWER),
    {
        fast_serialize(self.0.as_slice(), LOWER)
    }

    /// The forced-uppercase rendering.
    pub fn upper_hex_string(&self) -> (r: String)
        requires
            2 * self.0@.len() <= usize::MAX,
        ensures
            r@ == spec_encode(self.0@, UPPER),
    {
        fast_serialize(self.0.as_slice(), UPPER)
    }
}

impl UpperHex<Vec<u8>> {
    /// The default rendering: uppercase hex text.
    pub fn hex_string(&self) -> (r: String)
        requires
            2 * self.0@.len() <= usize::MAX,
        ensures
            r@ == spec_encode(self.0@, UPPER),
    {
        fast_serialize(self.0.as_slice(), UPPER)
    }

    /// The debug rendering: the default rendering wrapped in double quotes.
    pub fn debug_string(&self) -> (r: String)
        requires
            2 * self.0@.len() <= usize::MAX,
        ensures
            r@ == seq!['"'] + spec_encode(self.0@, UPPER) + seq!['"'],
    {
        quoted_hex(self.0.as_slice(), UPPER)
    }

    /// The forced-lowercase rendering.
    pub fn lower_hex_string(&self) -> (r: String)
        requires
            2 * self.0@.len() <= usize::MAX,
        ensures
            r@ == spec_encode(self.0@, LOWER),
    {
        fast_serialize(self.0.as_slice(), LOWER)
    }

    /// The forced-uppercase rendering.
    pub fn upper_hex_string(&self) -> (r: String)
        requires
            2 * self.0@.len() <= usize::MAX,
        ensures
            r@ == spec_encode(self.0@, UPPER),
    {
        fast_serialize(self.0.as_slice(), UPPER)
    }
}

} // verus!

//! External identities used as registry keys.

use vstd::prelude::*;

verus! {

/// An opaque 160-bit external identity (an address), split into a high 32-bit
/// part and a low 128-bit part.  Identities are only ever compared for
/// equality and used as registry keys.
#[derive(Clone, Copy, PartialEq, Eq, Structural, Debug)]
pub struct Address {
    pub hi: u32,
    pub lo: u128,
}

impl Address {
    /// Builds an identity from its two parts.
    pub fn new(hi: u32, lo: u128) -> (r: Address)
        ensures
            r == (Address { hi, lo }),
    {
        Address { hi, lo }
    }
}

} // verus!

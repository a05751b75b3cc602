//! 20-byte account identities.

use vstd::prelude::*;

verus! {

/// An account identity: the 20 bytes of an address, big-endian, split into
/// a 4-byte head and two 8-byte words.
#[derive(Clone, Copy, Debug, PartialEq, Eq, Structural)]
pub struct Address {
    pub head: u32,
    pub mid: u64,
    pub tail: u64,
}

impl Address {
    pub open spec fn spec_null() -> Address {
        Address { head: 0, mid: 0, tail: 0 }
    }

    /// The all-zero identity, which stands for "nobody".
    pub open spec fn is_null_spec(self) -> bool {
        self == Address::spec_null()
    }

    pub fn null() -> (r: Address)
        ensures
            r == Address::spec_null(),
    {
        Address { head: 0, mid: 0, tail: 0 }
    }

    pub fn is_null(&self) -> (r: bool)
        ensures
            r == self.is_null_spec(),
    {
        self.head == 0 && self.mid == 0 && self.tail == 0
    }
}

} // verus!

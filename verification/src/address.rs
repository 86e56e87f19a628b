//! Account addresses.

use vstd::prelude::*;

verus! {

/// A 32-byte account address.
#[derive(Clone, Copy, Debug, PartialEq, Eq)]
pub struct Address {
    pub bytes: [u8; 32],
}

impl View for Address {
    type V = Seq<u8>;

    open spec fn view(&self) -> Seq<u8> {
        self.bytes@
    }
}

impl Address {
    /// Whether every byte is zero: the address that stands for "no account".
    pub open spec fn is_zero(&self) -> bool {
        forall|i: int| 0 <= i < 32 ==> self@[i] == 0u8
    }

    /// Builds an address from its bytes.
    pub fn new(bytes: [u8; 32]) -> (a: Address)
        ensures
            a.bytes == bytes,
    {
        Address { bytes }
    }

    /// The all-zero address.
    pub fn zero() -> (a: Address)
        ensures
            a.is_zero(),
    {
        Address { bytes: [0u8; 32] }
    }

    /// Whether two addresses hold the same 32 bytes.
    pub fn equals(&self, other: &Address) -> (same: bool)
        ensures
            same == (*self == *other),
            same == (self@ == other@),
    {
        let mut i: usize = 0;
        while i < 32
            invariant
                i <= 32,
                forall|j: int| 0 <= j < i ==> self.bytes[j] == other.bytes[j],
            decreases 32 - i,
        {
            if self.bytes[i] != other.bytes[i] {
                return false;
            }
            i += 1;
        }
        assert(self.bytes =~= other.bytes);
        true
    }
}

/// Two all-zero addresses are the same address.
pub proof fn lemma_zero_is_unique(a: Address, b: Address)
    requires
        a.is_zero(),
        b.is_zero(),
    ensures
        a == b,
{
    assert forall|i: int| 0 <= i < 32 implies a.bytes[i] == b.bytes[i] by {
        assert(a@[i] == 0u8 && b@[i] == 0u8);
    }
    assert(a.bytes =~= b.bytes);
}

} // verus!

//! Account and contract addresses.

use vstd::prelude::*;

verus! {

/// A 20-byte account or contract address.
///
/// Its view is the sequence of its bytes; two addresses are equal exactly
/// when their views are.
#[derive(Clone, Copy, Debug, PartialEq, Eq, Hash)]
pub struct Address {
    pub bytes: [u8; 20],
}

impl View for Address {
    type V = Seq<u8>;

    open spec fn view(&self) -> Seq<u8> {
        self.bytes@
    }
}

impl Address {
    /// The address made of the given bytes.
    pub fn new(bytes: [u8; 20]) -> (a: Address)
        ensures
            a.bytes == bytes,
            a@ == bytes@,
    {
        Address { bytes }
    }

    /// The bytes of this address.
    pub fn to_bytes(&self) -> (bytes: [u8; 20])
        ensures
            bytes == self.bytes,
    {
        self.bytes
    }

    /// The address with the given bytes.
    pub open spec fn from_view(bytes: Seq<u8>) -> Address {
        choose|a: Address| a@ == bytes
    }

    /// `from_view` gives back the address whose view it is handed.
    pub proof fn lemma_from_view(a: Address)
        ensures
            Address::from_view(a@) == a,
    {
        let b = Address::from_view(a@);
        assert(b@ == a@);
        Address::lemma_view_injective(a, b);
    }

    /// Addresses with the same bytes are the same address.
    pub proof fn lemma_view_injective(a: Address, b: Address)
        ensures
            (a@ == b@) <==> (a == b),
    {
        if a@ == b@ {
            assert(a.bytes =~= b.bytes);
        }
    }

    /// Whether two addresses are the same.
    pub fn same_as(&self, other: &Address) -> (r: bool)
        ensures
            r == (*self == *other),
            r == (self@ == other@),
    {
        let mut i: usize = 0;
        while i < 20
            invariant
                0 <= i <= 20,
                forall|j: int| 0 <= j < i ==> self.bytes[j] == other.bytes[j],
            decreases 20 - i,
        {
            if self.bytes[i] != other.bytes[i] {
                assert(self@[i as int] != other@[i as int]);
                return false;
            }
            i += 1;
        }
        proof {
            assert(self.bytes =~= other.bytes);
        }
        true
    }
}

} // verus!

//! Thirty-two byte account addresses.

use vstd::prelude::*;
use vstd::std_specs::cmp::PartialEqSpecImpl;

verus! {

/// The address of an account: the identity of a participant or the
/// identifier of an asset collection.
///
/// Two addresses are the same address exactly when their bytes agree.
#[derive(Clone, Copy, Debug, Eq, Hash)]
pub struct Address {
    pub bytes: [u8; 32],
}

impl Address {
    /// The address made of the given bytes.
    pub fn new(bytes: [u8; 32]) -> (a: Address)
        ensures
            a.bytes == bytes,
    {
        Address { bytes }
    }

    /// The address whose bytes are all zero, as it stands in a record that
    /// nothing has been written to.
    pub open spec fn zero_spec() -> Address {
        Address { bytes: vstd::array::spec_array_fill_for_copy_type::<u8, 32>(0u8) }
    }

    /// The address whose bytes are all zero.
    #[verifier::when_used_as_spec(zero_spec)]
    pub fn zero() -> (a: Address)
        ensures
            a == Address::zero_spec(),
    {
        Address { bytes: [0u8; 32] }
    }

    /// The bytes of the address.
    pub fn to_bytes(&self) -> (bytes: [u8; 32])
        ensures
            bytes == self.bytes,
    {
        self.bytes
    }

    /// An address is determined by its bytes: two addresses that agree
    /// byte for byte are the same address.
    pub proof fn lemma_bytes_decide(a: Address, b: Address)
        ensures
            (a == b) <==> (forall|i: int| 0 <= i < 32 ==> a.bytes[i] == b.bytes[i]),
    {
        if forall|i: int| 0 <= i < 32 ==> a.bytes[i] == b.bytes[i] {
            assert(a.bytes =~= b.bytes);
        }
    }

    /// Every byte of the zero address is zero.
    pub proof fn lemma_zero_bytes()
        ensures
            forall|i: int| 0 <= i < 32 ==> Address::zero().bytes[i] == 0u8,
    {
        broadcast use vstd::array::axiom_spec_array_fill_for_copy_type;

    }
}

impl PartialEq for Address {
    fn eq(&self, other: &Address) -> (r: bool) {
        let mut i: usize = 0;
        while i < 32
            invariant
                i <= 32,
                forall|j: int| 0 <= j < i ==> self.bytes[j] == other.bytes[j],
            decreases 32 - i,
        {
            if self.bytes[i] != other.bytes[i] {
                return false;
            }
            i += 1;
        }
        proof {
            assert(self.bytes =~= other.bytes);
        }
        true
    }
}

impl PartialEqSpecImpl for Address {
    open spec fn obeys_eq_spec() -> bool {
        true
    }

    open spec fn eq_spec(&self, other: &Address) -> bool {
        *self == *other
    }
}

} // verus!

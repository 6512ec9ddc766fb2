use vstd::prelude::*;

verus! {

broadcast use vstd::array::group_array_axioms;

/// Thirty-two zero bytes.
pub open spec fn all_zero(s: Seq<u8>) -> bool {
    &&& s.len() == 32
    &&& forall|i: int| 0 <= i < 32 ==> s[i] == 0u8
}

/// A 32-byte account identity.
#[derive(Debug, Clone, Copy)]
pub struct Address {
    pub bytes: [u8; 32],
}

impl Address {
    /// The all-zero identity, used where a field is not yet set.
    pub fn zero() -> (r: Address)
        ensures
            all_zero(r.bytes@),
    {
        Address { bytes: [0u8; 32] }
    }

    pub fn new(bytes: [u8; 32]) -> (r: Address)
        ensures
            r.bytes == bytes,
    {
        Address { bytes }
    }

    /// Compares two identities byte by byte.
    pub fn same(&self, other: &Address) -> (r: bool)
        ensures
            r == (*self == *other),
    {
        let mut i: usize = 0;
        while i < 32
            invariant
                0 <= i <= 32,
                forall|j: int| 0 <= j < i ==> self.bytes@[j] == other.bytes@[j],
            decreases 32 - i,
        {
            if self.bytes[i] != other.bytes[i] {
                return false;
            }
            i = i + 1;
        }
        assert(self.bytes@ =~= other.bytes@);
        assert(self.bytes == other.bytes);
        true
    }
}

impl PartialEq for Address {
    fn eq(&self, o: &Address) -> (r: bool) {
        self.same(o)
    }
}

impl vstd::std_specs::cmp::PartialEqSpecImpl for Address {
    open spec fn obeys_eq_spec() -> bool {
        true
    }

    open spec fn eq_spec(&self, o: &Address) -> bool {
        *self == *o
    }
}

impl Eq for Address {}

} // verus!

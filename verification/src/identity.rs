//! Account and program identities: 32-byte addresses.

use vstd::prelude::*;

verus! {

/// A 32-byte identity of an account or a program.
#[derive(Clone, Copy, Debug, PartialEq, Eq)]
pub struct Identity {
    pub bytes: [u8; 32],
}

impl View for Identity {
    type V = Seq<u8>;

    open spec fn view(&self) -> Seq<u8> {
        self.bytes@
    }
}

impl Identity {
    /// Wraps 32 bytes as an identity.
    pub fn new(bytes: [u8; 32]) -> (id: Identity)
        ensures
            id.bytes == bytes,
            id@ == bytes@,
    {
        Identity { bytes }
    }

    /// Whether two identities hold the same 32 bytes.
    pub fn same(&self, other: &Identity) -> (equal: bool)
        ensures
            equal == (*self == *other),
            equal == (self@ == other@),
    {
        broadcast use vstd::array::group_array_axioms;
        let mut i: usize = 0;
        while i < 32
            invariant
                i <= 32,
                forall|j: int| 0 <= j < i ==> self.bytes[j] == other.bytes[j],
            decreases 32 - i,
        {
            if self.bytes[i] != other.bytes[i] {
                assert(self.bytes@[i as int] != other.bytes@[i as int]);
                return false;
            }
            i += 1;
        }
        assert(self.bytes =~= other.bytes);
        true
    }
}

/// Two identities with the same bytes are the same identity.
pub proof fn identity_view_injective(a: Identity, b: Identity)
    ensures
        (a@ == b@) <==> (a == b),
{
    broadcast use vstd::array::group_array_axioms;
    if a@ == b@ {
        assert(forall|i: int| 0 <= i < 32 ==> a.bytes[i] == b.bytes[i]) by {
            assert forall|i: int| 0 <= i < 32 implies a.bytes[i] == b.bytes[i] by {
                assert(a.bytes@[i] == b.bytes@[i]);
            }
        }
        assert(a.bytes =~= b.bytes);
    }
}

} // verus!

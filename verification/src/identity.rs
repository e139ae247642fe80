//! Public identities: 32-byte addresses of accounts and programs.

use vstd::prelude::*;

verus! {

/// A public identity. It is only ever referenced, never owned, by this crate.
#[derive(Clone, Copy, Debug, PartialEq, Eq, Hash)]
pub struct Identity {
    pub bytes: [u8; 32],
}

impl View for Identity {
    type V = Seq<u8>;

    open spec fn view(&self) -> Seq<u8> {
        self.bytes@
    }
}

impl Identity {
    /// Wraps 32 bytes as an identity.
    pub fn new(bytes: [u8; 32]) -> (id: Identity)
        ensures
            id.bytes == bytes,
            id@ == bytes@,
    {
        Identity { bytes }
    }

    /// Whether two identities are the same 32 bytes.
    pub fn same(&self, other: &Identity) -> (eq: bool)
        ensures
            eq == (self@ == other@),
            eq == (*self == *other),
    {
        let mut i: usize = 0;
        while i < 32
            invariant
                i <= 32,
                forall|k: int| 0 <= k < i ==> self.bytes[k] == other.bytes[k],
            decreases 32 - i,
        {
            if self.bytes[i] != other.bytes[i] {
                assert(self@[i as int] != other@[i as int]);
                return false;
            }
            i = i + 1;
        }
        assert(self.bytes =~= other.bytes);
        assert(self@ =~= other@);
        true
    }

    /// The identity's bytes as an owned vector.
    pub fn to_vec(&self) -> (v: Vec<u8>)
        ensures
            v@ == self@,
    {
        let mut v: Vec<u8> = Vec::new();
        let mut i: usize = 0;
        while i < 32
            invariant
                i <= 32,
                v@.len() == i,
                forall|k: int| 0 <= k < i ==> v@[k] == self.bytes[k],
            decreases 32 - i,
        {
            v.push(self.bytes[i]);
            i = i + 1;
        }
        assert(v@ =~= self@);
        v
    }
}

/// Identities with the same bytes are the same identity.
pub proof fn lemma_identity_by_bytes(a: Identity, b: Identity)
    requires
        a@ == b@,
    ensures
        a == b,
{
    assert forall|i: int| 0 <= i < 32 implies a.bytes[i] == b.bytes[i] by {
        assert(a@[i] == b@[i]);
    }
    assert(a.bytes =~= b.bytes);
}

} // verus!

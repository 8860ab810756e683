//! The caller identity: an opaque 32-byte token, unique per actor, that the
//! store compares for equality and never interprets. The environment is
//! responsible for authenticating the actor behind a token; the store trusts
//! the value it is handed.

use vstd::prelude::*;

verus! {

/// The number of bytes in an identity token.
pub const IDENTITY_LENGTH: usize = 32;

/// An opaque identity token. Two tokens denote the same actor exactly when
/// their bytes are equal.
#[derive(Clone, Copy, Debug)]
pub struct Identity {
    bytes: [u8; 32],
}

impl View for Identity {
    type V = Seq<u8>;

    closed spec fn view(&self) -> Seq<u8> {
        self.bytes@
    }
}

impl Identity {
    /// Wraps raw token bytes as an identity.
    pub fn new(bytes: [u8; 32]) -> (id: Identity)
        ensures
            id@ == bytes@,
    {
        Identity { bytes }
    }

    /// The raw token bytes.
    pub fn to_bytes(&self) -> (bytes: [u8; 32])
        ensures
            bytes@ == self@,
    {
        self.bytes
    }

    /// Every identity token has exactly [`IDENTITY_LENGTH`] bytes.
    pub proof fn lemma_length(self)
        ensures
            self@.len() == IDENTITY_LENGTH,
    {
        broadcast use vstd::array::group_array_axioms;

    }
}

impl PartialEq for Identity {
    fn eq(&self, other: &Identity) -> (r: bool) {
        proof {
            broadcast use vstd::array::group_array_axioms;

        }
        let mut i: usize = 0;
        while i < 32
            invariant
                0 <= i <= 32,
                self@.len() == 32,
                other@.len() == 32,
                forall|j: int| 0 <= j < i ==> self@[j] == other@[j],
            decreases 32 - i,
        {
            if self.bytes[i] != other.bytes[i] {
                return false;
            }
            i = i + 1;
        }
        proof {
            assert(self@ =~= other@);
        }
        true
    }
}

impl vstd::std_specs::cmp::PartialEqSpecImpl for Identity {
    open spec fn obeys_eq_spec() -> bool {
        true
    }

    open spec fn eq_spec(&self, other: &Identity) -> bool {
        self@ == other@
    }
}

} // verus!

//! Account identities: 32-byte addresses on the underlying ledger.
//!
//! The engine only ever compares identities for equality and rejects the null
//! (all-zero) identity where an authority is being assigned; everything else
//! about an address is opaque to it.

use vstd::prelude::*;

verus! {

/// A 32-byte account address on the underlying ledger.
#[derive(Clone, Copy, Debug)]
pub struct Identity {
    pub bytes: [u8; 32],
}

impl View for Identity {
    type V = Seq<u8>;

    open spec fn view(&self) -> Seq<u8> {
        self.bytes@
    }
}

/// Two identities denote the same account exactly when their bytes agree.
pub open spec fn same_identity(a: Identity, b: Identity) -> bool {
    a@ == b@
}

/// The null identity is the all-zero address; it is never a valid authority.
pub open spec fn is_null_identity(a: Identity) -> bool {
    forall|i: int| 0 <= i < 32 ==> a@[i] == 0
}

impl Identity {
    pub fn from_bytes(bytes: [u8; 32]) -> (r: Identity)
        ensures
            r@ == bytes@,
    {
        Identity { bytes }
    }

    /// Byte-for-byte equality of two addresses.
    pub fn equals(&self, other: &Identity) -> (r: bool)
        ensures
            r <==> same_identity(*self, *other),
    {
        let mut i: usize = 0;
        while i < 32
            invariant
                i <= 32,
                forall|j: int| 0 <= j < i ==> self@[j] == other@[j],
            decreases 32 - i,
        {
            if self.bytes[i] != other.bytes[i] {
                return false;
            }
            i += 1;
        }
        proof {
            assert(self@ =~= other@);
        }
        true
    }

    /// Whether this is the null (all-zero) address.
    pub fn is_null(&self) -> (r: bool)
        ensures
            r <==> is_null_identity(*self),
    {
        let mut i: usize = 0;
        while i < 32
            invariant
                i <= 32,
                forall|j: int| 0 <= j < i ==> self@[j] == 0,
            decreases 32 - i,
        {
            if self.bytes[i] != 0 {
                proof {
                    assert(self@[i as int] != 0);
                }
                return false;
            }
            i += 1;
        }
        true
    }
}

} // verus!

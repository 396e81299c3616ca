//! Identities: fixed-width addresses of accounts, programs, mints and
//! depositors on the host ledger. An all-zero identity is the sentinel that
//! marks an empty whitelist slot and an unset record field.

use vstd::prelude::*;

verus! {

/// Number of bytes in an identity.
pub const IDENTITY_LEN: usize = 32;

/// A fixed-width ledger address.
#[derive(Clone, Copy, Debug)]
pub struct Identity {
    pub bytes: [u8; 32],
}

impl View for Identity {
    type V = Seq<u8>;

    open spec fn view(&self) -> Seq<u8> {
        self.bytes@
    }
}

/// The all-zero identity, used as the sentinel for "empty" or "unset".
pub open spec fn is_zero_identity(id: Seq<u8>) -> bool {
    id.len() == 32 && forall|i: int| 0 <= i < 32 ==> id[i] == 0u8
}

impl Identity {
    pub fn new(bytes: [u8; 32]) -> (r: Identity)
        ensures
            r@ == bytes@,
    {
        Identity { bytes }
    }

    /// The sentinel identity (all zero bytes).
    pub fn zero() -> (r: Identity)
        ensures
            is_zero_identity(r@),
    {
        let bytes = [0u8; 32];
        assert(forall|i: int| 0 <= i < 32 ==> bytes@[i] == 0u8);
        Identity { bytes }
    }

    /// Byte-for-byte equality of two identities.
    pub fn eq_id(&self, other: &Identity) -> (r: bool)
        ensures
            r == (self@ == other@),
    {
        let mut i: usize = 0;
        while i < 32
            invariant
                0 <= i <= 32,
                forall|j: int| 0 <= j < i ==> self@[j] == other@[j],
            decreases 32 - i,
        {
            if self.bytes[i] != other.bytes[i] {
                assert(self@[i as int] != other@[i as int]);
                return false;
            }
            i += 1;
        }
        proof {
            assert(self@ =~= other@);
        }
        true
    }

    /// Whether this identity is the all-zero sentinel.
    pub fn is_zero(&self) -> (r: bool)
        ensures
            r == is_zero_identity(self@),
    {
        let mut i: usize = 0;
        while i < 32
            invariant
                0 <= i <= 32,
                forall|j: int| 0 <= j < i ==> self@[j] == 0u8,
            decreases 32 - i,
        {
            if self.bytes[i] != 0 {
                return false;
            }
            i += 1;
        }
        true
    }
}

} // verus!

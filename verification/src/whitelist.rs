//! The whitelist store: a fixed-capacity set of depositor identities for a
//! private raise. Fifty fixed-width slots; the all-zero identity marks an
//! empty slot. Entries are added into the first empty slot and deleted by
//! writing the sentinel back over them.

use vstd::prelude::*;
use crate::error::FundErrorCode;
use crate::identity::{Identity, is_zero_identity};

verus! {

/// Number of identity slots in a whitelist store.
pub const WHITELIST_LEN: usize = 50;

/// Byte size of one slot.
pub const WHITELIST_ITEM_SIZE: usize = 32;

/// Byte size of the whole store.
pub const WHITELIST_SIZE: usize = 1600;

/// Whether the listed slots hold `id`.
pub open spec fn whitelist_contains(slots: Seq<Seq<u8>>, id: Seq<u8>) -> bool {
    exists|i: int| 0 <= i < slots.len() && slots[i] == id
}

/// The fifty slots a persisted whitelist store's bytes hold.
pub open spec fn spec_whitelist_slots(data: Seq<u8>) -> Seq<Seq<u8>> {
    Seq::new(WHITELIST_LEN as nat, |i: int| data.subrange(32 * i, 32 * i + 32))
}

/// A whitelist store held as its fifty slots.
#[derive(Debug)]
pub struct Whitelist {
    slots: Vec<Identity>,
}

impl View for Whitelist {
    type V = Seq<Seq<u8>>;

    closed spec fn view(&self) -> Seq<Seq<u8>> {
        Seq::new(self.slots@.len() as nat, |i: int| self.slots@[i]@)
    }
}

impl Whitelist {
    /// The store's invariant: exactly fifty slots.
    pub open spec fn wf(&self) -> bool {
        self@.len() == WHITELIST_LEN
    }

    /// Parse a store from its persisted bytes. Any size but exactly
    /// 50 x 32 bytes is rejected as invalid whitelist data.
    pub fn new(data: &[u8]) -> (r: Result<Whitelist, FundErrorCode>)
        ensures
            (r is Ok) == (data@.len() == WHITELIST_SIZE),
            r matches Err(e) ==> e == FundErrorCode::WhitelistInvalidData,
            r matches Ok(w) ==> {
                &&& w.wf()
                &&& forall|i: int|
                    0 <= i < WHITELIST_LEN ==> w@[i] == data@.subrange(32 * i, 32 * i + 32)
            },
    {
        if data.len() != WHITELIST_SIZE {
            return Err(FundErrorCode::WhitelistInvalidData);
        }
        let mut slots: Vec<Identity> = Vec::new();
        let mut i: usize = 0;
        while i < WHITELIST_LEN
            invariant
                0 <= i <= WHITELIST_LEN,
                data@.len() == WHITELIST_SIZE,
                slots@.len() == i,
                forall|j: int| 0 <= j < i ==> slots@[j]@ == data@.subrange(32 * j, 32 * j + 32),
            decreases WHITELIST_LEN - i,
        {
            let id = crate::codec::read_identity(data, 32 * i);
            slots.push(id);
            i += 1;
        }
        Ok(Whitelist { slots })
    }

    /// Serialize the store back into its 1600 persisted bytes.
    pub fn to_bytes(&self) -> (r: Vec<u8>)
        requires
            self.wf(),
        ensures
            r@.len() == WHITELIST_SIZE,
            forall|i: int| 0 <= i < WHITELIST_LEN ==> r@.subrange(32 * i, 32 * i + 32) == self@[i],
    {
        let mut out: Vec<u8> = Vec::new();
        let mut i: usize = 0;
        while i < WHITELIST_LEN
            invariant
                self.wf(),
                0 <= i <= WHITELIST_LEN,
                out@.len() == 32 * i,
                forall|j: int| 0 <= j < i ==> out@.subrange(32 * j, 32 * j + 32) =~= self@[j],
            decreases WHITELIST_LEN - i,
        {
            crate::codec::write_identity(&mut out, &self.slots[i]);
            proof {
                assert forall|j: int| 0 <= j < i + 1 implies out@.subrange(32 * j, 32 * j + 32)
                    =~= self@[j] by {}
            }
            i += 1;
        }
        out
    }

    /// The identity stored in the given slot.
    pub fn get_at(&self, index: usize) -> (r: Identity)
        requires
            self.wf(),
            index < WHITELIST_LEN,
        ensures
            r@ == self@[index as int],
    {
        self.slots[index]
    }

    /// Overwrite the given slot.
    pub fn add_at(&mut self, index: usize, item: Identity)
        requires
            old(self).wf(),
            index < WHITELIST_LEN,
        ensures
            final(self).wf(),
            final(self)@ =~= old(self)@.update(index as int, item@),
    {
        self.slots[index] = item;
    }

    /// The first slot holding `e`, if any.
    fn index_of(&self, e: &Identity) -> (r: Option<usize>)
        requires
            self.wf(),
        ensures
            r matches Some(i) ==> {
                &&& i < WHITELIST_LEN
                &&& self@[i as int] == e@
                &&& forall|j: int| 0 <= j < i ==> self@[j] != e@
            },
            r is None ==> !whitelist_contains(self@, e@),
    {
        let mut i: usize = 0;
        while i < WHITELIST_LEN
            invariant
                self.wf(),
                0 <= i <= WHITELIST_LEN,
                forall|j: int| 0 <= j < i ==> self@[j] != e@,
            decreases WHITELIST_LEN - i,
        {
            if self.slots[i].eq_id(e) {
                return Some(i);
            }
            i += 1;
        }
        None
    }

    /// Whether the store lists `e`.
    pub fn contains(&self, e: &Identity) -> (r: bool)
        requires
            self.wf(),
        ensures
            r == whitelist_contains(self@, e@),
    {
        match self.index_of(e) {
            Some(i) => {
                proof {
                    assert(whitelist_contains(self@, e@)) by {
                        assert(self@[i as int] == e@);
                    }
                }
                true
            },
            None => false,
        }
    }

    /// Insert `entry` into the first empty slot. Rejects an entry that is
    /// already listed; returns the written slot, or `None` when every slot
    /// is taken.
    pub fn push(&mut self, entry: Identity) -> (r: Result<Option<usize>, FundErrorCode>)
        requires
            old(self).wf(),
        ensures
            final(self).wf(),
            (r is Err) == whitelist_contains(old(self)@, entry@),
            r matches Err(e) ==> e == FundErrorCode::PubKeyAlreadyExists && *final(self) == *old(
                self,
            ),
            r matches Ok(slot) ==> match slot {
                Some(i) => {
                    &&& i < WHITELIST_LEN
                    &&& is_zero_identity(old(self)@[i as int])
                    &&& forall|j: int| 0 <= j < i ==> !is_zero_identity(old(self)@[j])
                    &&& final(self)@ =~= old(self)@.update(i as int, entry@)
                },
                None => {
                    &&& !(exists|i: int|
                        0 <= i < WHITELIST_LEN && is_zero_identity(old(self)@[i]))
                    &&& *final(self) == *old(self)
                },
            },
    {
        if let Some(_existing) = self.index_of(&entry) {
            return Err(FundErrorCode::PubKeyAlreadyExists);
        }
        let zero = Identity::zero();
        match self.index_of(&zero) {
            Some(idx) => {
                proof {
                    assert(is_zero_identity(self@[idx as int])) by {
                        assert(self@[idx as int] == zero@);
                    }
                    assert forall|j: int| 0 <= j < idx implies !is_zero_identity(self@[j]) by {
                        if is_zero_identity(self@[j]) {
                            assert(self@[j] =~= zero@);
                        }
                    }
                }
                self.add_at(idx, entry);
                Ok(Some(idx))
            },
            None => {
                proof {
                    assert forall|i: int|
                        0 <= i < WHITELIST_LEN implies !is_zero_identity(self@[i]) by {
                        if is_zero_identity(self@[i]) {
                            assert(self@[i] =~= zero@);
                            assert(whitelist_contains(self@, zero@));
                        }
                    }
                }
                Ok(None)
            },
        }
    }

    /// Delete `entry`: overwrite its first slot with the sentinel. Returns
    /// the cleared slot, or `None` when the entry is not listed.
    pub fn delete(&mut self, entry: Identity) -> (r: Result<Option<usize>, FundErrorCode>)
        requires
            old(self).wf(),
        ensures
            final(self).wf(),
            r is Ok,
            r matches Ok(slot) ==> match slot {
                Some(i) => {
                    &&& i < WHITELIST_LEN
                    &&& old(self)@[i as int] == entry@
                    &&& forall|j: int| 0 <= j < i ==> old(self)@[j] != entry@
                    &&& final(self)@ =~= old(self)@.update(
                        i as int,
                        Seq::new(32, |k: int| 0u8),
                    )
                    &&& is_zero_identity(final(self)@[i as int])
                },
                None => {
                    &&& !whitelist_contains(old(self)@, entry@)
                    &&& *final(self) == *old(self)
                },
            },
    {
        match self.index_of(&entry) {
            Some(idx) => {
                let zero = Identity::zero();
                self.add_at(idx, zero);
                proof {
                    assert(zero@ =~= Seq::new(32, |k: int| 0u8));
                }
                Ok(Some(idx))
            },
            None => Ok(None),
        }
    }
}

} // verus!

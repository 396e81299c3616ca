//! WhitelistDelete: the owner removes a depositor identity from a private
//! raise's whitelist by overwriting its slot with the all-zero sentinel.
//! An identity that is not listed is reported as not found.

use vstd::prelude::*;
use crate::access_control;
use crate::account::AccountView;
use crate::error::FundErrorCode;
use crate::fund::Fund;
use crate::identity::Identity;
use crate::whitelist::{Whitelist, WHITELIST_LEN, spec_whitelist_slots, whitelist_contains};

verus! {

/// The first check a deletion fails, if any: owner signature, record
/// custody, whitelist binding, and membership, in that order.
pub open spec fn spec_whitelist_delete_error(
    program_id: &Identity,
    fund: &Fund,
    fund_acc: &AccountView,
    fund_owner_acc: &AccountView,
    whitelist_acc: &AccountView,
    entry: Seq<u8>,
) -> Option<FundErrorCode> {
    let slots = spec_whitelist_slots(whitelist_acc.data@);
    if !access_control::spec_owner_signed(fund, fund_owner_acc) {
        Some(FundErrorCode::Unauthorized)
    } else if fund_acc.owner@ != program_id@ {
        Some(FundErrorCode::InvalidAccountOwner)
    } else if !fund.initialized {
        Some(FundErrorCode::NotInitialized)
    } else if !access_control::spec_whitelist_bound(whitelist_acc, fund) {
        Some(FundErrorCode::WhitelistInvalidData)
    } else if !whitelist_contains(slots, entry) {
        Some(FundErrorCode::WhitelistNotFound)
    } else {
        None
    }
}

/// Whether `new` is `slots` with the first slot holding `entry` cleared to
/// the sentinel.
pub open spec fn spec_deleted_store(new: Seq<Seq<u8>>, slots: Seq<Seq<u8>>, entry: Seq<u8>) -> bool {
    exists|i: int|
        {
            &&& 0 <= i < WHITELIST_LEN
            &&& slots[i] == entry
            &&& (forall|j: int| 0 <= j < i ==> slots[j] != entry)
            &&& new == slots.update(i, Seq::new(32, |k: int| 0u8))
        }
}

/// Delete `entry` from the fund's whitelist. On success the returned store
/// is the old store with the first slot holding `entry` overwritten by the
/// sentinel.
pub fn handler(
    program_id: &Identity,
    fund: &Fund,
    fund_acc: &AccountView,
    fund_owner_acc: &AccountView,
    whitelist_acc: &AccountView,
    entry: Identity,
) -> (r: Result<Whitelist, FundErrorCode>)
    ensures
        (r is Ok) == (spec_whitelist_delete_error(
            program_id,
            fund,
            fund_acc,
            fund_owner_acc,
            whitelist_acc,
            entry@,
        ) is None),
        r matches Err(e) ==> Some(e) == spec_whitelist_delete_error(
            program_id,
            fund,
            fund_acc,
            fund_owner_acc,
            whitelist_acc,
            entry@,
        ),
        r matches Ok(w) ==> w.wf() && spec_deleted_store(
            w@,
            spec_whitelist_slots(whitelist_acc.data@),
            entry@,
        ),
{
    access_control::check_owner(fund, fund_owner_acc)?;
    if !fund_acc.owner.eq_id(program_id) {
        return Err(FundErrorCode::InvalidAccountOwner);
    }
    if !fund.initialized {
        return Err(FundErrorCode::NotInitialized);
    }
    let mut w = access_control::whitelist(whitelist_acc, fund)?;
    let ghost slots = spec_whitelist_slots(whitelist_acc.data@);
    proof {
        assert(w@ == slots);
    }
    match w.delete(entry) {
        Err(e) => Err(e),
        Ok(None) => Err(FundErrorCode::WhitelistNotFound),
        Ok(Some(idx)) => {
            proof {
                assert(spec_deleted_store(w@, slots, entry@)) by {
                    assert(w@ =~= slots.update(idx as int, Seq::new(32, |k: int| 0u8)));
                }
            }
            Ok(w)
        },
    }
}

} // verus!

//! WhitelistAdd: the owner adds a depositor identity to a private raise's
//! whitelist. An identity already listed is rejected; otherwise it is
//! written into the first empty slot, and a store with no empty slot left
//! reports that it is full.

use vstd::prelude::*;
use crate::access_control;
use crate::account::AccountView;
use crate::error::FundErrorCode;
use crate::fund::Fund;
use crate::identity::{Identity, is_zero_identity};
use crate::whitelist::{Whitelist, WHITELIST_LEN, spec_whitelist_slots, whitelist_contains};

verus! {

/// The first check an addition fails, if any: owner signature, record
/// custody, whitelist binding, duplicates, and capacity, in that order.
pub open spec fn spec_whitelist_add_error(
    program_id: &Identity,
    fund: &Fund,
    fund_acc: &AccountView,
    fund_owner_acc: &AccountView,
    whitelist_acc: &AccountView,
    entry: Seq<u8>,
) -> Option<FundErrorCode> {
    let slots = spec_whitelist_slots(whitelist_acc.data@);
    if !access_control::spec_owner_signed(fund, fund_owner_acc) {
        Some(FundErrorCode::Unauthorized)
    } else if fund_acc.owner@ != program_id@ {
        Some(FundErrorCode::InvalidAccountOwner)
    } else if !fund.initialized {
        Some(FundErrorCode::NotInitialized)
    } else if !access_control::spec_whitelist_bound(whitelist_acc, fund) {
        Some(FundErrorCode::WhitelistInvalidData)
    } else if whitelist_contains(slots, entry) {
        Some(FundErrorCode::PubKeyAlreadyExists)
    } else if !(exists|i: int| 0 <= i < WHITELIST_LEN && is_zero_identity(slots[i])) {
        Some(FundErrorCode::WhitelistFull)
    } else {
        None
    }
}

/// Whether `new` is `slots` with `entry` written into the first empty slot.
pub open spec fn spec_added_store(new: Seq<Seq<u8>>, slots: Seq<Seq<u8>>, entry: Seq<u8>) -> bool {
    exists|i: int|
        {
            &&& 0 <= i < WHITELIST_LEN
            &&& is_zero_identity(slots[i])
            &&& (forall|j: int| 0 <= j < i ==> !is_zero_identity(slots[j]))
            &&& new == slots.update(i, entry)
        }
}

/// Add `entry` to the fund's whitelist. On success the returned store is
/// the old store with `entry` written into its first empty slot.
pub fn handler(
    program_id: &Identity,
    fund: &Fund,
    fund_acc: &AccountView,
    fund_owner_acc: &AccountView,
    whitelist_acc: &AccountView,
    entry: Identity,
) -> (r: Result<Whitelist, FundErrorCode>)
    ensures
        (r is Ok) == (spec_whitelist_add_error(
            program_id,
            fund,
            fund_acc,
            fund_owner_acc,
            whitelist_acc,
            entry@,
        ) is None),
        r matches Err(e) ==> Some(e) == spec_whitelist_add_error(
            program_id,
            fund,
            fund_acc,
            fund_owner_acc,
            whitelist_acc,
            entry@,
        ),
        r matches Ok(w) ==> w.wf() && spec_added_store(
            w@,
            spec_whitelist_slots(whitelist_acc.data@),
            entry@,
        ),
{
    access_control::check_owner(fund, fund_owner_acc)?;
    if !fund_acc.owner.eq_id(program_id) {
        return Err(FundErrorCode::InvalidAccountOwner);
    }
    if !fund.initialized {
        return Err(FundErrorCode::NotInitialized);
    }
    let mut w = access_control::whitelist(whitelist_acc, fund)?;
    let ghost slots = spec_whitelist_slots(whitelist_acc.data@);
    proof {
        assert(w@ == slots);
    }
    match w.push(entry) {
        Err(e) => Err(e),
        Ok(None) => Err(FundErrorCode::WhitelistFull),
        Ok(Some(idx)) => {
            proof {
                assert(spec_added_store(w@, slots, entry@)) by {
                    assert(w@ =~= slots.update(idx as int, entry@));
                }
            }
            Ok(w)
        },
    }
}

} // verus!

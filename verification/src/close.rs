//! Close: the owner shuts the fund to further deposits. Closing is
//! idempotent — closing an already-closed fund is a no-op, not an error —
//! and a closed fund never reopens.

use vstd::prelude::*;
use crate::access_control;
use crate::account::AccountView;
use crate::error::FundErrorCode;
use crate::fund::Fund;

verus! {

/// The record after Close: open cleared, everything else untouched.
pub open spec fn spec_closed_fund(fund: Fund) -> Fund {
    Fund { open: false, ..fund }
}

/// Close a fund. Only the fund's owner, signing, may close; the effect is
/// exactly `open := false`.
pub fn handler(fund: &Fund, fund_owner_acc: &AccountView) -> (r: Result<Fund, FundErrorCode>)
    ensures
        (r is Ok) == access_control::spec_owner_signed(fund, fund_owner_acc),
        r matches Err(e) ==> e == FundErrorCode::Unauthorized,
        r matches Ok(f) ==> f == spec_closed_fund(*fund),
        r matches Ok(f) ==> !f.open,
        fund.wf() ==> (r matches Ok(f) ==> f.wf()),
{
    access_control::check_owner(fund, fund_owner_acc)?;
    let mut next = *fund;
    next.close_fund();
    Ok(next)
}

/// Close is idempotent: after one successful Close the owner may close
/// again without error, and the second close changes nothing — the fund
/// stays closed both times.
pub proof fn lemma_close_idempotent(fund: Fund, fund_owner_acc: AccountView)
    requires
        access_control::spec_owner_signed(&fund, &fund_owner_acc),
    ensures
        access_control::spec_owner_signed(&spec_closed_fund(fund), &fund_owner_acc),
        spec_closed_fund(spec_closed_fund(fund)) == spec_closed_fund(fund),
        !spec_closed_fund(fund).open,
        !spec_closed_fund(spec_closed_fund(fund)).open,
{
}

} // verus!

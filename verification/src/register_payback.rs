//! RegisterPayback: after a raise, the owner funds a secondary payback pool.
//! The recorded payback total grows by the paid amount, and the payback rate
//! per share accumulates the paid amount divided by the recorded shares
//! (integer division, rounding down).

use vstd::prelude::*;
use crate::access_control;
use crate::account::AccountView;
use crate::error::FundErrorCode;
use crate::fund::Fund;
use crate::identity::Identity;

verus! {

/// The first check a payback registration fails, if any. A fund with no
/// recorded shares has nothing to distribute over, and a total that would
/// no longer fit its field is a capacity failure.
pub open spec fn spec_register_payback_error(
    program_id: &Identity,
    amount: u64,
    fund: &Fund,
    fund_acc: &AccountView,
    owner_acc: &AccountView,
) -> Option<FundErrorCode> {
    if !owner_acc.is_signer {
        Some(FundErrorCode::Unauthorized)
    } else if fund_acc.owner@ != program_id@ {
        Some(FundErrorCode::InvalidAccountOwner)
    } else if !fund.initialized {
        Some(FundErrorCode::NotInitialized)
    } else if fund.owner@ != owner_acc.key@ {
        Some(FundErrorCode::Unauthorized)
    } else if fund.shares == 0 {
        Some(FundErrorCode::InvalidFund)
    } else if fund.payback_total + amount > u64::MAX {
        Some(FundErrorCode::FundBalanceOverflow)
    } else {
        None
    }
}

/// The record after a successful registration: total up by `amount`, rate
/// up by `amount / shares`.
pub open spec fn spec_register_payback_fund(fund: Fund, amount: u64) -> Fund {
    Fund {
        payback_total: (fund.payback_total + amount) as u64,
        payback_per_share: (fund.payback_per_share + amount as int / fund.shares as int) as u64,
        ..fund
    }
}

/// Register `amount` into the fund's payback pool. Only the owner, signing,
/// may register; the rate per share accumulates `amount / shares`.
pub fn handler(
    program_id: &Identity,
    amount: u64,
    fund: &Fund,
    fund_acc: &AccountView,
    owner_acc: &AccountView,
) -> (r: Result<Fund, FundErrorCode>)
    requires
        fund.wf(),
    ensures
        (r is Ok) == (spec_register_payback_error(program_id, amount, fund, fund_acc, owner_acc)
            is None),
        r matches Err(e) ==> Some(e) == spec_register_payback_error(
            program_id,
            amount,
            fund,
            fund_acc,
            owner_acc,
        ),
        r matches Ok(f) ==> f == spec_register_payback_fund(*fund, amount) && f.wf(),
{
    if !owner_acc.is_signer {
        return Err(FundErrorCode::Unauthorized);
    }
    if !fund_acc.owner.eq_id(program_id) {
        return Err(FundErrorCode::InvalidAccountOwner);
    }
    if !fund.initialized {
        return Err(FundErrorCode::NotInitialized);
    }
    if !fund.owner.eq_id(&owner_acc.key) {
        return Err(FundErrorCode::Unauthorized);
    }
    if fund.shares == 0 {
        return Err(FundErrorCode::InvalidFund);
    }
    if amount > u64::MAX - fund.payback_total {
        return Err(FundErrorCode::FundBalanceOverflow);
    }
    let per_share = amount / fund.shares;
    let mut next = *fund;
    next.add_payback_bal(amount);
    proof {
        assert(amount as int / fund.shares as int <= amount as int) by (nonlinear_arith)
            requires
                fund.shares >= 1,
                amount >= 0,
        ;
    }
    next.add_payback_per_share(per_share);
    Ok(next)
}

} // verus!

//! Withdraw: the owner takes funds out of the vault. Only permitted after
//! the fund has been closed to deposits, only by the fund's owner, and only
//! up to the recorded balance; the tokens move out under the custody proof
//! derived from the fund's address and nonce.

use vstd::prelude::*;
use crate::access_control;
use crate::account::AccountView;
use crate::custody::SignerSeeds;
use crate::effects::{FundEffect, TokenDirective};
use crate::error::FundErrorCode;
use crate::fund::Fund;
use crate::identity::Identity;

verus! {

/// The first check a withdrawal fails, if any: signer, record custody,
/// balance, vault binding, closed-ness, and ownership, in that order.
pub open spec fn spec_withdraw_error(
    program_id: &Identity,
    amount: u64,
    fund: &Fund,
    fund_acc: &AccountView,
    withdraw_acc: &AccountView,
    vault_acc: &AccountView,
    vault_authority_acc: &AccountView,
) -> Option<FundErrorCode> {
    if !withdraw_acc.is_signer {
        Some(FundErrorCode::Unauthorized)
    } else if fund_acc.owner@ != program_id@ {
        Some(FundErrorCode::InvalidAccountOwner)
    } else if !fund.initialized {
        Some(FundErrorCode::NotInitialized)
    } else if amount > fund.balance {
        Some(FundErrorCode::FundBalanceOverflow)
    } else if access_control::spec_vault_join_err(
        vault_acc,
        vault_authority_acc,
        fund,
        fund_acc.key@,
        program_id,
    ) is Some {
        access_control::spec_vault_join_err(
            vault_acc,
            vault_authority_acc,
            fund,
            fund_acc.key@,
            program_id,
        )
    } else if fund.open {
        Some(FundErrorCode::FundOpen)
    } else if fund.owner@ != withdraw_acc.key@ {
        Some(FundErrorCode::Unauthorized)
    } else {
        None
    }
}

/// The transfer a successful withdrawal requires: `amount` out of the vault
/// to the beneficiary, signed with the fund's custody proof.
pub open spec fn spec_withdraw_directive(
    amount: u64,
    fund: &Fund,
    fund_acc: &AccountView,
    withdraw_acc: &AccountView,
    vault_acc: &AccountView,
    vault_authority_acc: &AccountView,
) -> TokenDirective {
    TokenDirective::Transfer {
        source: vault_acc.key,
        destination: withdraw_acc.key,
        authority: vault_authority_acc.key,
        amount: amount,
        custody: Some(SignerSeeds { fund: fund_acc.key, nonce: fund.nonce }),
    }
}

/// Withdraw `amount` from the fund's vault to the owner's account.
/// Succeeds exactly when every gate passes; on success the balance drops by
/// `amount` and one custody-signed transfer is required. Any failure leaves
/// the record untouched and requires no transfer.
pub fn handler(
    program_id: &Identity,
    amount: u64,
    fund: &Fund,
    fund_acc: &AccountView,
    withdraw_acc: &AccountView,
    vault_acc: &AccountView,
    vault_authority_acc: &AccountView,
) -> (r: Result<FundEffect, FundErrorCode>)
    requires
        fund.wf(),
    ensures
        (r is Ok) == (spec_withdraw_error(
            program_id,
            amount,
            fund,
            fund_acc,
            withdraw_acc,
            vault_acc,
            vault_authority_acc,
        ) is None),
        r matches Err(e) ==> Some(e) == spec_withdraw_error(
            program_id,
            amount,
            fund,
            fund_acc,
            withdraw_acc,
            vault_acc,
            vault_authority_acc,
        ),
        r matches Ok(eff) ==> {
            &&& eff.fund == (Fund { balance: (fund.balance - amount) as u64, ..*fund })
            &&& eff.fund.wf()
            &&& !eff.fund.open
            &&& eff.directives@ =~= seq![
                spec_withdraw_directive(
                    amount,
                    fund,
                    fund_acc,
                    withdraw_acc,
                    vault_acc,
                    vault_authority_acc,
                ),
            ]
        },
{
    if !withdraw_acc.is_signer {
        return Err(FundErrorCode::Unauthorized);
    }
    if !fund_acc.owner.eq_id(program_id) {
        return Err(FundErrorCode::InvalidAccountOwner);
    }
    if !fund.initialized {
        return Err(FundErrorCode::NotInitialized);
    }
    if amount > fund.balance {
        return Err(FundErrorCode::FundBalanceOverflow);
    }
    let _vault = access_control::vault_join(
        vault_acc,
        vault_authority_acc,
        fund,
        &fund_acc.key,
        program_id,
    )?;
    access_control::fund_closed(fund)?;
    access_control::withdraw(program_id, fund, fund_acc, withdraw_acc)?;
    let mut next = *fund;
    next.deduct(amount);
    let directive = TokenDirective::Transfer {
        source: vault_acc.key,
        destination: withdraw_acc.key,
        authority: vault_authority_acc.key,
        amount: amount,
        custody: Some(SignerSeeds { fund: fund_acc.key, nonce: fund.nonce }),
    };
    let mut directives: Vec<TokenDirective> = Vec::new();
    directives.push(directive);
    Ok(FundEffect { fund: next, directives })
}

} // verus!

//! PaybackWithdraw: a receipt-NFT holder claims from the payback pool. The
//! presented NFT token account must be of the fund's receipt mint, the
//! destination must not already hold the claim, and the claim may not exceed
//! the recorded shares. The record itself does not change; the pool moves
//! tokens under the fund's custody proof.

use vstd::prelude::*;
use crate::access_control;
use crate::account::AccountView;
use crate::custody::SignerSeeds;
use crate::effects::TokenDirective;
use crate::error::FundErrorCode;
use crate::fund::Fund;
use crate::identity::Identity;
use crate::token::{TokenAccountState, spl_token_account_of};

verus! {

/// The first check a payback claim fails, if any: signer, record custody,
/// fund kind, receipt-account checks, destination balance, and claim size,
/// in that order.
pub open spec fn spec_payback_withdraw_error(
    program_id: &Identity,
    amount: u64,
    fund: &Fund,
    fund_acc: &AccountView,
    withdraw_acc: &AccountView,
    nft_token_acc: &AccountView,
    destination_acc: &AccountView,
) -> Option<FundErrorCode> {
    if !withdraw_acc.is_signer {
        Some(FundErrorCode::Unauthorized)
    } else if fund_acc.owner@ != program_id@ {
        Some(FundErrorCode::InvalidAccountOwner)
    } else if !fund.initialized {
        Some(FundErrorCode::NotInitialized)
    } else if !fund.is_raise() {
        Some(FundErrorCode::InvalidFund)
    } else {
        match access_control::spec_token_gate(nft_token_acc) {
            Err(e) => Some(e),
            Ok(t) => if t.mint@ != fund.nft_mint@ {
                Some(FundErrorCode::InvalidTokenAccountMint)
            } else {
                match spl_token_account_of(destination_acc.data@) {
                    None => Some(FundErrorCode::WrongSerialization),
                    Some(d) => if d.state == TokenAccountState::Uninitialized {
                        Some(FundErrorCode::WrongSerialization)
                    } else if d.amount >= amount {
                        Some(FundErrorCode::InvalidPayBackWithdrawlAddress)
                    } else if amount > fund.shares {
                        Some(FundErrorCode::WithdrawlSizeOverflow)
                    } else {
                        None
                    },
                }
            },
        }
    }
}

/// The transfer a successful claim requires: `amount` out of the payback
/// vault to the claimant, signed with the fund's custody proof.
pub open spec fn spec_payback_withdraw_directive(
    amount: u64,
    fund: &Fund,
    fund_acc: &AccountView,
    withdraw_acc: &AccountView,
    payback_vault_acc: &AccountView,
    payback_vault_authority_acc: &AccountView,
) -> TokenDirective {
    TokenDirective::Transfer {
        source: payback_vault_acc.key,
        destination: withdraw_acc.key,
        authority: payback_vault_authority_acc.key,
        amount: amount,
        custody: Some(SignerSeeds { fund: fund_acc.key, nonce: fund.nonce }),
    }
}

/// Claim `amount` from the fund's payback pool against a receipt NFT.
/// Succeeds exactly when every gate passes; the record never changes.
pub fn handler(
    program_id: &Identity,
    amount: u64,
    fund: &Fund,
    fund_acc: &AccountView,
    withdraw_acc: &AccountView,
    nft_token_acc: &AccountView,
    destination_acc: &AccountView,
    payback_vault_acc: &AccountView,
    payback_vault_authority_acc: &AccountView,
) -> (r: Result<TokenDirective, FundErrorCode>)
    ensures
        (r is Ok) == (spec_payback_withdraw_error(
            program_id,
            amount,
            fund,
            fund_acc,
            withdraw_acc,
            nft_token_acc,
            destination_acc,
        ) is None),
        r matches Err(e) ==> Some(e) == spec_payback_withdraw_error(
            program_id,
            amount,
            fund,
            fund_acc,
            withdraw_acc,
            nft_token_acc,
            destination_acc,
        ),
        r matches Ok(d) ==> d == spec_payback_withdraw_directive(
            amount,
            fund,
            fund_acc,
            withdraw_acc,
            payback_vault_acc,
            payback_vault_authority_acc,
        ),
{
    if !withdraw_acc.is_signer {
        return Err(FundErrorCode::Unauthorized);
    }
    if !fund_acc.owner.eq_id(program_id) {
        return Err(FundErrorCode::InvalidAccountOwner);
    }
    if !fund.initialized {
        return Err(FundErrorCode::NotInitialized);
    }
    let raise = match fund.fund_type {
        crate::fund::FundType::Raise { private: _ } => true,
        crate::fund::FundType::FundMe => false,
    };
    if !raise {
        return Err(FundErrorCode::InvalidFund);
    }
    let t = access_control::token(nft_token_acc)?;
    if !t.mint.eq_id(&fund.nft_mint) {
        return Err(FundErrorCode::InvalidTokenAccountMint);
    }
    let d = match crate::token::unpack_token_account(destination_acc.data.as_slice()) {
        None => {
            return Err(FundErrorCode::WrongSerialization);
        },
        Some(d) => d,
    };
    if matches!(d.state, TokenAccountState::Uninitialized) {
        return Err(FundErrorCode::WrongSerialization);
    }
    if d.amount >= amount {
        return Err(FundErrorCode::InvalidPayBackWithdrawlAddress);
    }
    if amount > fund.shares {
        return Err(FundErrorCode::WithdrawlSizeOverflow);
    }
    Ok(
        TokenDirective::Transfer {
            source: payback_vault_acc.key,
            destination: withdraw_acc.key,
            authority: payback_vault_authority_acc.key,
            amount: amount,
            custody: Some(SignerSeeds { fund: fund_acc.key, nonce: fund.nonce }),
        },
    )
}

} // verus!

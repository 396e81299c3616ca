//! Deposit: a signer pays `amount` of the quote asset into an open fund.
//! Raises mint a receipt NFT to the depositor and accrue shares alongside
//! the balance; private raises additionally require the depositor to be
//! whitelisted. Every failure leaves the record untouched and moves nothing.

use vstd::prelude::*;
use crate::access_control;
use crate::account::AccountView;
use crate::custody::SignerSeeds;
use crate::effects::{FundEffect, TokenDirective};
use crate::error::FundErrorCode;
use crate::fund::{Fund, FundType};
use crate::identity::Identity;

verus! {

/// The first check a deposit fails, if any: signer, record custody, vault
/// binding, capacity, openness, receipt-NFT accounts, and whitelist
/// membership, in that order.
pub open spec fn spec_deposit_error(
    program_id: &Identity,
    amount: u64,
    fund: &Fund,
    fund_acc: &AccountView,
    vault_acc: &AccountView,
    depositor_authority_acc: &AccountView,
    vault_authority_acc: &AccountView,
    nft_mint_acc: Option<AccountView>,
    nft_token_acc: Option<AccountView>,
    whitelist_acc: Option<AccountView>,
) -> Option<FundErrorCode> {
    if !depositor_authority_acc.is_signer {
        Some(FundErrorCode::Unauthorized)
    } else if fund_acc.owner@ != program_id@ {
        Some(FundErrorCode::InvalidAccountOwner)
    } else if !fund.initialized {
        Some(FundErrorCode::NotInitialized)
    } else if access_control::spec_vault_join_err(
        vault_acc,
        vault_authority_acc,
        fund,
        fund_acc.key@,
        program_id,
    ) is Some {
        access_control::spec_vault_join_err(
            vault_acc,
            vault_authority_acc,
            fund,
            fund_acc.key@,
            program_id,
        )
    } else if fund.balance + amount > fund.max_balance {
        Some(FundErrorCode::FundBalanceOverflow)
    } else if !fund.open {
        Some(FundErrorCode::FundClosed)
    } else if fund.is_raise() {
        match (nft_mint_acc, nft_token_acc) {
            (None, _) => Some(FundErrorCode::NFTMintMissing),
            (Some(_), None) => Some(FundErrorCode::NFTTokenAccountMissing),
            (Some(nma), Some(nta)) => match access_control::spec_check_nft(fund, &nma, &nta) {
                Err(e) => Some(e),
                Ok(_) => spec_deposit_whitelist_error(
                    fund,
                    depositor_authority_acc,
                    whitelist_acc,
                ),
            },
        }
    } else {
        spec_deposit_whitelist_error(fund, depositor_authority_acc, whitelist_acc)
    }
}

/// The whitelist part of the deposit gate: only a private raise consults
/// the whitelist, and it must be bound to the fund and list the depositor.
pub open spec fn spec_deposit_whitelist_error(
    fund: &Fund,
    depositor_authority_acc: &AccountView,
    whitelist_acc: Option<AccountView>,
) -> Option<FundErrorCode> {
    if fund.is_private_raise() {
        match whitelist_acc {
            None => Some(FundErrorCode::WhitelistInvalidData),
            Some(wl) => access_control::spec_check_depositor_err(
                &wl,
                fund,
                depositor_authority_acc.key@,
            ),
        }
    } else {
        None
    }
}

/// The transfer every successful deposit requires: `amount` from the
/// depositor's token account into the vault, signed by the depositor.
pub open spec fn spec_deposit_transfer(
    amount: u64,
    vault_acc: &AccountView,
    depositor_acc: &AccountView,
    depositor_authority_acc: &AccountView,
) -> TokenDirective {
    TokenDirective::Transfer {
        source: depositor_acc.key,
        destination: vault_acc.key,
        authority: depositor_authority_acc.key,
        amount: amount,
        custody: None,
    }
}

/// The receipt mint a successful deposit into a raise requires: `amount`
/// receipt tokens to the depositor's NFT account, under the custody proof.
pub open spec fn spec_deposit_mint(
    amount: u64,
    fund: &Fund,
    fund_acc: &AccountView,
    vault_authority_acc: &AccountView,
    nft_token_acc: &AccountView,
) -> TokenDirective {
    TokenDirective::MintTo {
        mint: fund.nft_mint,
        destination: nft_token_acc.key,
        authority: vault_authority_acc.key,
        amount: amount,
        custody: Some(SignerSeeds { fund: fund_acc.key, nonce: fund.nonce }),
    }
}

/// Deposit `amount` into the fund. Succeeds exactly when every gate passes;
/// on success the balance grows by `amount`, a raise accrues the same in
/// shares and mints a receipt, and the deposit transfer is required.
pub fn handler(
    program_id: &Identity,
    amount: u64,
    fund: &Fund,
    fund_acc: &AccountView,
    vault_acc: &AccountView,
    depositor_acc: &AccountView,
    depositor_authority_acc: &AccountView,
    vault_authority_acc: &AccountView,
    nft_mint_acc: Option<&AccountView>,
    nft_token_acc: Option<&AccountView>,
    whitelist_acc: Option<&AccountView>,
) -> (r: Result<FundEffect, FundErrorCode>)
    requires
        fund.wf(),
    ensures
        (r is Ok) == (spec_deposit_error(
            program_id,
            amount,
            fund,
            fund_acc,
            vault_acc,
            depositor_authority_acc,
            vault_authority_acc,
            crate::account::opt_view(nft_mint_acc),
            crate::account::opt_view(nft_token_acc),
            crate::account::opt_view(whitelist_acc),
        ) is None),
        r matches Err(e) ==> Some(e) == spec_deposit_error(
            program_id,
            amount,
            fund,
            fund_acc,
            vault_acc,
            depositor_authority_acc,
            vault_authority_acc,
            crate::account::opt_view(nft_mint_acc),
            crate::account::opt_view(nft_token_acc),
            crate::account::opt_view(whitelist_acc),
        ),
        r matches Ok(eff) ==> {
            &&& eff.fund == fund.with_deposit(amount)
            &&& eff.fund.wf()
            &&& if fund.is_raise() {
                nft_token_acc matches Some(nta) && eff.directives@ =~= seq![
                    spec_deposit_mint(amount, fund, fund_acc, vault_authority_acc, nta),
                    spec_deposit_transfer(
                        amount,
                        vault_acc,
                        depositor_acc,
                        depositor_authority_acc,
                    ),
                ]
            } else {
                eff.directives@ =~= seq![
                    spec_deposit_transfer(
                        amount,
                        vault_acc,
                        depositor_acc,
                        depositor_authority_acc,
                    ),
                ]
            }
        },
{
    if !depositor_authority_acc.is_signer {
        return Err(FundErrorCode::Unauthorized);
    }
    if !fund_acc.owner.eq_id(program_id) {
        return Err(FundErrorCode::InvalidAccountOwner);
    }
    if !fund.initialized {
        return Err(FundErrorCode::NotInitialized);
    }
    let _vault = access_control::vault_join(
        vault_acc,
        vault_authority_acc,
        fund,
        &fund_acc.key,
        program_id,
    )?;
    access_control::check_balance(fund, amount)?;
    access_control::fund_open(fund)?;
    let raise = match fund.fund_type {
        FundType::Raise { private: _ } => true,
        FundType::FundMe => false,
    };
    let mut directives: Vec<TokenDirective> = Vec::new();
    if raise {
        let nma = match nft_mint_acc {
            Some(nma) => nma,
            None => {
                return Err(FundErrorCode::NFTMintMissing);
            },
        };
        let nta = match nft_token_acc {
            Some(nta) => nta,
            None => {
                return Err(FundErrorCode::NFTTokenAccountMissing);
            },
        };
        let _nft = access_control::check_nft(fund, nma, nta)?;
        let private = matches!(fund.fund_type, FundType::Raise { private: true });
        if private {
            let wl = match whitelist_acc {
                Some(wl) => wl,
                None => {
                    return Err(FundErrorCode::WhitelistInvalidData);
                },
            };
            access_control::check_depositor(wl, fund, &depositor_authority_acc.key)?;
        }
        directives.push(
            TokenDirective::MintTo {
                mint: fund.nft_mint,
                destination: nta.key,
                authority: vault_authority_acc.key,
                amount: amount,
                custody: Some(SignerSeeds { fund: fund_acc.key, nonce: fund.nonce }),
            },
        );
    }
    directives.push(
        TokenDirective::Transfer {
            source: depositor_acc.key,
            destination: vault_acc.key,
            authority: depositor_authority_acc.key,
            amount: amount,
            custody: None,
        },
    );
    let mut next = *fund;
    next.add(amount);
    Ok(FundEffect { fund: next, directives })
}

} // verus!

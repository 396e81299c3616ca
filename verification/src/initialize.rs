//! Initialize: turn a freshly allocated record into an open fund. The
//! record must not already be initialized, the vault's custody owner must be
//! the address derived from the fund's address with nonce zero, and a raise
//! additionally brings a receipt-NFT mint whose authority is that same
//! derived address.

use vstd::prelude::*;
use crate::access_control;
use crate::account::AccountView;
use crate::codec::spec_fund_encoding_valid;
use crate::custody::custody_address;
use crate::error::FundErrorCode;
use crate::fund::{Fund, FundType};
use crate::identity::{Identity, is_zero_identity};

verus! {

/// The nonce a fund is created with.
pub const CREATION_NONCE: u8 = 0;

/// The receipt-NFT part of the initialize gate: a raise must present an
/// initialized receipt mint whose mint authority is the derived custody
/// address.
pub open spec fn spec_initialize_nft_error(
    program_id: &Identity,
    fund_type: FundType,
    fund_acc: &AccountView,
    nft_mint_acc: Option<AccountView>,
    nft_token_acc: Option<AccountView>,
) -> Option<FundErrorCode> {
    if fund_type is Raise {
        match (nft_mint_acc, nft_token_acc) {
            (None, _) => Some(FundErrorCode::NFTMintMissing),
            (Some(_), None) => Some(FundErrorCode::NFTTokenAccountMissing),
            (Some(nma), Some(_)) => match access_control::spec_mint_gate(&nma) {
                Err(e) => Some(e),
                Ok(m) => if !(m.mint_authority matches Some(a) && Some(a@) == custody_address(
                    fund_acc.key@,
                    CREATION_NONCE,
                    program_id@,
                )) {
                    Some(FundErrorCode::InvalidMintAuthority)
                } else {
                    None
                },
            },
        }
    } else {
        None
    }
}

/// The first check initialization fails, if any: a parsable, still
/// uninitialized record owned by this program; a vault whose token owner is
/// the derived custody address; the receipt-NFT checks of a raise; and an
/// initialized quote mint, in that order.
pub open spec fn spec_initialize_error(
    program_id: &Identity,
    fund_type: FundType,
    fund_acc: &AccountView,
    vault_acc: &AccountView,
    mint_acc: &AccountView,
    nft_mint_acc: Option<AccountView>,
    nft_token_acc: Option<AccountView>,
) -> Option<FundErrorCode> {
    if !spec_fund_encoding_valid(fund_acc.data@) {
        Some(FundErrorCode::WrongSerialization)
    } else if fund_acc.owner@ != program_id@ {
        Some(FundErrorCode::NotOwnedByProgram)
    } else if fund_acc.data@[0] == 1 {
        Some(FundErrorCode::AlreadyInitialized)
    } else {
        match access_control::spec_token_gate(vault_acc) {
            Err(e) => Some(e),
            Ok(vault) => match custody_address(fund_acc.key@, CREATION_NONCE, program_id@) {
                None => Some(FundErrorCode::InvalidVaultNonce),
                Some(va) => if vault.owner@ != va {
                    Some(FundErrorCode::InvalidVault)
                } else {
                    match spec_initialize_nft_error(
                        program_id,
                        fund_type,
                        fund_acc,
                        nft_mint_acc,
                        nft_token_acc,
                    ) {
                        Some(e) => Some(e),
                        None => match access_control::spec_mint_gate(mint_acc) {
                            Err(e) => Some(e),
                            Ok(_) => None,
                        },
                    }
                },
            },
        }
    }
}

/// What a freshly initialized record holds: initialized, open, empty, and
/// bound to the given owner, authority, limits, vault, mint, and — for a
/// raise — receipt-NFT accounts and (if private) whitelist store.
pub open spec fn spec_initialized_fund(
    f: Fund,
    owner: Identity,
    authority: Identity,
    max_balance: u64,
    fund_type: FundType,
    vault_acc: &AccountView,
    mint_acc: &AccountView,
    whitelist_acc: &AccountView,
    nft_mint_acc: Option<AccountView>,
    nft_token_acc: Option<AccountView>,
) -> bool {
    &&& f.initialized
    &&& f.open
    &&& f.fund_type == fund_type
    &&& f.owner == owner
    &&& f.authority == authority
    &&& f.max_balance == max_balance
    &&& f.balance == 0
    &&& f.nonce == CREATION_NONCE
    &&& f.mint == mint_acc.key
    &&& f.vault == vault_acc.key
    &&& f.shares == 0
    &&& f.payback_total == 0
    &&& f.payback_per_share == 0
    &&& is_zero_identity(f.payback_vault@)
    &&& if fund_type is Raise {
        &&& nft_mint_acc matches Some(nma) && f.nft_mint == nma.key
        &&& nft_token_acc matches Some(nta) && f.nft_account == nta.key
    } else {
        is_zero_identity(f.nft_mint@) && is_zero_identity(f.nft_account@)
    }
    &&& if fund_type == (FundType::Raise { private: true }) {
        f.whitelist == whitelist_acc.key
    } else {
        is_zero_identity(f.whitelist@)
    }
    &&& f.wf()
}

/// Initialize a fund record. Succeeds exactly when every gate passes; the
/// resulting record is initialized, open, empty, and carries the given
/// owner, authority, limits and bindings.
pub fn handler(
    program_id: &Identity,
    owner: Identity,
    authority: Identity,
    max_balance: u64,
    fund_type: FundType,
    fund_acc: &AccountView,
    vault_acc: &AccountView,
    mint_acc: &AccountView,
    whitelist_acc: &AccountView,
    nft_mint_acc: Option<&AccountView>,
    nft_token_acc: Option<&AccountView>,
) -> (r: Result<Fund, FundErrorCode>)
    ensures
        (r is Ok) == (spec_initialize_error(
            program_id,
            fund_type,
            fund_acc,
            vault_acc,
            mint_acc,
            crate::account::opt_view(nft_mint_acc),
            crate::account::opt_view(nft_token_acc),
        ) is None),
        r matches Err(e) ==> Some(e) == spec_initialize_error(
            program_id,
            fund_type,
            fund_acc,
            vault_acc,
            mint_acc,
            crate::account::opt_view(nft_mint_acc),
            crate::account::opt_view(nft_token_acc),
        ),
        r matches Ok(f) ==> spec_initialized_fund(
            f,
            owner,
            authority,
            max_balance,
            fund_type,
            vault_acc,
            mint_acc,
            whitelist_acc,
            crate::account::opt_view(nft_mint_acc),
            crate::account::opt_view(nft_token_acc),
        ),
{
    let parsed = match Fund::unpack(fund_acc.data.as_slice()) {
        Some(parsed) => parsed,
        None => {
            return Err(FundErrorCode::WrongSerialization);
        },
    };
    proof {
        crate::codec::lemma_pack_fund_segments(parsed);
    }
    if !fund_acc.owner.eq_id(program_id) {
        return Err(FundErrorCode::NotOwnedByProgram);
    }
    if parsed.initialized {
        return Err(FundErrorCode::AlreadyInitialized);
    }
    let vault = access_control::token(vault_acc)?;
    let va = match crate::custody::derive_custody_address(&fund_acc.key, CREATION_NONCE, program_id) {
        Some(va) => va,
        None => {
            return Err(FundErrorCode::InvalidVaultNonce);
        },
    };
    if !vault.owner.eq_id(&va) {
        return Err(FundErrorCode::InvalidVault);
    }
    let raise = match fund_type {
        FundType::Raise { private: _ } => true,
        FundType::FundMe => false,
    };
    let zero = Identity::zero();
    let mut nft_mint = zero;
    let mut nft_account = zero;
    if raise {
        let nma = match nft_mint_acc {
            Some(nma) => nma,
            None => {
                return Err(FundErrorCode::NFTMintMissing);
            },
        };
        let nta = match nft_token_acc {
            Some(nta) => nta,
            None => {
                return Err(FundErrorCode::NFTTokenAccountMissing);
            },
        };
        let m = access_control::mint(nma)?;
        let authority_ok = match m.mint_authority {
            Some(a) => a.eq_id(&va),
            None => false,
        };
        if !authority_ok {
            return Err(FundErrorCode::InvalidMintAuthority);
        }
        nft_mint = nma.key;
        nft_account = nta.key;
    }
    let _mint = access_control::mint(mint_acc)?;
    let private = matches!(fund_type, FundType::Raise { private: true });
    let whitelist = if private {
        whitelist_acc.key
    } else {
        zero
    };
    Ok(
        Fund {
            initialized: true,
            open: true,
            fund_type,
            owner,
            authority,
            max_balance,
            balance: 0,
            nonce: CREATION_NONCE,
            mint: mint_acc.key,
            vault: vault_acc.key,
            shares: 0,
            nft_account,
            nft_mint,
            whitelist,
            payback_vault: zero,
            payback_total: 0,
            payback_per_share: 0,
        },
    )
}

} // verus!

//! The access-control gate: stateless checks, each returning success or a
//! specific error. Handlers compose these before any mutation and never
//! bypass them.

use vstd::prelude::*;
use crate::account::AccountView;
use crate::codec::{spec_fund_encoding_valid, spec_pack_fund};
use crate::custody::{custody_address, derive_custody_address};
use crate::error::FundErrorCode;
use crate::fund::Fund;
use crate::identity::Identity;
use crate::token::{
    MintInfo, TokenAccountInfo, TokenAccountState, is_spl_token_program, is_token_program,
    spl_mint_of, spl_token_account_of, unpack_mint, unpack_token_account,
};
use crate::whitelist::{Whitelist, WHITELIST_SIZE, spec_whitelist_slots, whitelist_contains};

verus! {

/// What `token` decides: the handle must be owned by the external transfer
/// service, parse as one of its token accounts, and report Initialized state.
pub open spec fn spec_token_gate(acc: &AccountView) -> Result<TokenAccountInfo, FundErrorCode> {
    if !is_spl_token_program(acc.owner@) {
        Err(FundErrorCode::InvalidAccountOwner)
    } else {
        match spl_token_account_of(acc.data@) {
            None => Err(FundErrorCode::WrongSerialization),
            Some(t) => if t.state != TokenAccountState::Initialized {
                Err(FundErrorCode::NotInitialized)
            } else {
                Ok(t)
            },
        }
    }
}

/// Validate a token-account handle.
pub fn token(acc: &AccountView) -> (r: Result<TokenAccountInfo, FundErrorCode>)
    ensures
        r == spec_token_gate(acc),
{
    if !is_token_program(&acc.owner) {
        return Err(FundErrorCode::InvalidAccountOwner);
    }
    match unpack_token_account(acc.data.as_slice()) {
        None => Err(FundErrorCode::WrongSerialization),
        Some(t) => {
            if !matches!(t.state, TokenAccountState::Initialized) {
                Err(FundErrorCode::NotInitialized)
            } else {
                Ok(t)
            }
        },
    }
}

/// What `mint` decides: the handle must be an initialized mint of the
/// external transfer service.
pub open spec fn spec_mint_gate(acc: &AccountView) -> Result<MintInfo, FundErrorCode> {
    if !is_spl_token_program(acc.owner@) {
        Err(FundErrorCode::InvalidMint)
    } else {
        match spl_mint_of(acc.data@) {
            None => Err(FundErrorCode::InvalidMint),
            Some(m) => if !m.is_initialized {
                Err(FundErrorCode::UnitializedTokenMint)
            } else {
                Ok(m)
            },
        }
    }
}

/// Validate a mint handle.
pub fn mint(acc: &AccountView) -> (r: Result<MintInfo, FundErrorCode>)
    ensures
        r == spec_mint_gate(acc),
{
    if !is_token_program(&acc.owner) {
        return Err(FundErrorCode::InvalidMint);
    }
    match unpack_mint(acc.data.as_slice()) {
        None => Err(FundErrorCode::InvalidMint),
        Some(m) => {
            if !m.is_initialized {
                Err(FundErrorCode::UnitializedTokenMint)
            } else {
                Ok(m)
            }
        },
    }
}

/// Whether a fund-record handle passes the load gate: owned by this program,
/// a valid encoding, and marked initialized (byte 0 of the encoding).
pub open spec fn spec_fund_gate_ok(acc: &AccountView, program_id: &Identity) -> bool {
    &&& acc.owner@ == program_id@
    &&& spec_fund_encoding_valid(acc.data@)
    &&& acc.data@[0] == 1
}

/// The error the load gate reports when it fails.
pub open spec fn spec_fund_gate_err(acc: &AccountView, program_id: &Identity) -> FundErrorCode {
    if acc.owner@ != program_id@ {
        FundErrorCode::InvalidAccountOwner
    } else if !spec_fund_encoding_valid(acc.data@) {
        FundErrorCode::WrongSerialization
    } else {
        FundErrorCode::NotInitialized
    }
}

/// Load a fund record from its handle: the record's owner must be this
/// program and the record must be initialized.
pub fn fund(acc: &AccountView, program_id: &Identity) -> (r: Result<Fund, FundErrorCode>)
    ensures
        (r is Ok) == spec_fund_gate_ok(acc, program_id),
        r matches Ok(f) ==> acc.data@ == spec_pack_fund(f) && f.initialized,
        r matches Err(e) ==> e == spec_fund_gate_err(acc, program_id),
{
    if !acc.owner.eq_id(program_id) {
        return Err(FundErrorCode::InvalidAccountOwner);
    }
    match Fund::unpack(acc.data.as_slice()) {
        None => Err(FundErrorCode::WrongSerialization),
        Some(f) => {
            proof {
                crate::codec::lemma_pack_fund_segments(f);
            }
            if !f.initialized {
                Err(FundErrorCode::NotInitialized)
            } else {
                Ok(f)
            }
        },
    }
}

/// What `vault` decides: a valid token account whose address is the fund's
/// recorded vault.
pub open spec fn spec_vault_gate(acc: &AccountView, fund: &Fund) -> Result<
    TokenAccountInfo,
    FundErrorCode,
> {
    match spec_token_gate(acc) {
        Err(e) => Err(e),
        Ok(t) => if acc.key@ != fund.vault@ {
            Err(FundErrorCode::InvalidVault)
        } else {
            Ok(t)
        },
    }
}

/// Validate that a handle is the fund's vault.
pub fn vault(acc: &AccountView, fund: &Fund) -> (r: Result<TokenAccountInfo, FundErrorCode>)
    ensures
        r == spec_vault_gate(acc, fund),
{
    let t = match token(acc) {
        Ok(t) => t,
        Err(e) => {
            return Err(e);
        },
    };
    if !acc.key.eq_id(&fund.vault) {
        return Err(FundErrorCode::InvalidVault);
    }
    Ok(t)
}

/// Whether the custody-authority handle passes: the derivation from the
/// fund's address and nonce must succeed and equal the handle's address.
pub open spec fn spec_vault_authority_ok(
    acc: &AccountView,
    fund_addr: Seq<u8>,
    nonce: u8,
    program_id: &Identity,
) -> bool {
    match custody_address(fund_addr, nonce, program_id@) {
        None => false,
        Some(va) => va == acc.key@,
    }
}

/// The error the custody-authority check reports when it fails.
pub open spec fn spec_vault_authority_err(
    acc: &AccountView,
    fund_addr: Seq<u8>,
    nonce: u8,
    program_id: &Identity,
) -> FundErrorCode {
    if custody_address(fund_addr, nonce, program_id@) is None {
        FundErrorCode::InvalidVaultNonce
    } else {
        FundErrorCode::InvalidVault
    }
}

/// Check the custody authority of a fund: derive the custody address from
/// the fund's address and stored nonce, and hold the handle to it.
pub fn vault_authority(
    vault_authority_acc: &AccountView,
    fund_addr: &Identity,
    fund: &Fund,
    program_id: &Identity,
) -> (r: Result<Identity, FundErrorCode>)
    ensures
        (r is Ok) == spec_vault_authority_ok(vault_authority_acc, fund_addr@, fund.nonce, program_id),
        r matches Ok(va) ==> Some(va@) == custody_address(fund_addr@, fund.nonce, program_id@),
        r matches Err(e) ==> e == spec_vault_authority_err(
            vault_authority_acc,
            fund_addr@,
            fund.nonce,
            program_id,
        ),
{
    let va = match derive_custody_address(fund_addr, fund.nonce, program_id) {
        Some(va) => va,
        None => {
            return Err(FundErrorCode::InvalidVaultNonce);
        },
    };
    if !va.eq_id(&vault_authority_acc.key) {
        return Err(FundErrorCode::InvalidVault);
    }
    Ok(va)
}

/// What `vault_join` decides: the vault handle is the fund's valid vault,
/// the custody authority checks out, and the vault's token owner is that
/// custody authority.
pub open spec fn spec_vault_join_err(
    vault_acc: &AccountView,
    vault_authority_acc: &AccountView,
    fund: &Fund,
    fund_addr: Seq<u8>,
    program_id: &Identity,
) -> Option<FundErrorCode> {
    match spec_vault_gate(vault_acc, fund) {
        Err(e) => Some(e),
        Ok(v) => if !spec_vault_authority_ok(vault_authority_acc, fund_addr, fund.nonce, program_id) {
            Some(spec_vault_authority_err(vault_authority_acc, fund_addr, fund.nonce, program_id))
        } else if custody_address(fund_addr, fund.nonce, program_id@) != Some(v.owner@) {
            Some(FundErrorCode::InvalidVault)
        } else {
            None
        },
    }
}

/// Bind a vault handle to its fund: vault address, custody derivation and
/// vault ownership must all agree.
pub fn vault_join(
    vault_acc: &AccountView,
    vault_authority_acc: &AccountView,
    fund: &Fund,
    fund_addr: &Identity,
    program_id: &Identity,
) -> (r: Result<TokenAccountInfo, FundErrorCode>)
    ensures
        (r is Ok) == (spec_vault_join_err(vault_acc, vault_authority_acc, fund, fund_addr@, program_id)
            is None),
        r matches Err(e) ==> Some(e) == spec_vault_join_err(
            vault_acc,
            vault_authority_acc,
            fund,
            fund_addr@,
            program_id,
        ),
        r matches Ok(t) ==> spec_vault_gate(vault_acc, fund) == Ok::<
            TokenAccountInfo,
            FundErrorCode,
        >(t),
{
    let v = match vault(vault_acc, fund) {
        Ok(v) => v,
        Err(e) => {
            return Err(e);
        },
    };
    let va = match vault_authority(vault_authority_acc, fund_addr, fund, program_id) {
        Ok(va) => va,
        Err(e) => {
            return Err(e);
        },
    };
    if !va.eq_id(&v.owner) {
        return Err(FundErrorCode::InvalidVault);
    }
    Ok(v)
}

/// What the withdraw gate decides: the record handle is owned by this
/// program, the record is initialized, and the beneficiary is the fund's
/// owner.
pub open spec fn spec_withdraw_gate_err(
    program_id: &Identity,
    fund: &Fund,
    fund_acc: &AccountView,
    beneficiary: &AccountView,
) -> Option<FundErrorCode> {
    if fund_acc.owner@ != program_id@ {
        Some(FundErrorCode::InvalidAccount)
    } else if !fund.initialized {
        Some(FundErrorCode::NotInitialized)
    } else if fund.owner@ != beneficiary.key@ {
        Some(FundErrorCode::Unauthorized)
    } else {
        None
    }
}

/// Gate a withdrawal: only the fund's owner may take funds out.
pub fn withdraw(
    program_id: &Identity,
    fund: &Fund,
    fund_acc: &AccountView,
    beneficiary: &AccountView,
) -> (r: Result<(), FundErrorCode>)
    ensures
        (r is Ok) == (spec_withdraw_gate_err(program_id, fund, fund_acc, beneficiary) is None),
        r matches Err(e) ==> Some(e) == spec_withdraw_gate_err(
            program_id,
            fund,
            fund_acc,
            beneficiary,
        ),
{
    if !fund_acc.owner.eq_id(program_id) {
        return Err(FundErrorCode::InvalidAccount);
    }
    if !fund.initialized {
        return Err(FundErrorCode::NotInitialized);
    }
    if !fund.owner.eq_id(&beneficiary.key) {
        return Err(FundErrorCode::Unauthorized);
    }
    Ok(())
}

/// Verify capacity: a deposit may not lift the balance above the maximum.
/// The comparison is exact; it cannot overflow.
pub fn check_balance(fund: &Fund, amount: u64) -> (r: Result<(), FundErrorCode>)
    ensures
        r == if fund.balance + amount > fund.max_balance {
            Err::<(), FundErrorCode>(FundErrorCode::FundBalanceOverflow)
        } else {
            Ok::<(), FundErrorCode>(())
        },
{
    if amount > fund.max_balance || fund.balance > fund.max_balance - amount {
        Err(FundErrorCode::FundBalanceOverflow)
    } else {
        Ok(())
    }
}

/// Whether the caller signed and is the fund's owner.
pub open spec fn spec_owner_signed(fund: &Fund, owner_acc: &AccountView) -> bool {
    owner_acc.is_signer && owner_acc.key@ == fund.owner@
}

/// Verify that the caller is a signer and the fund's owner.
pub fn check_owner(fund: &Fund, owner_acc: &AccountView) -> (r: Result<(), FundErrorCode>)
    ensures
        r == if spec_owner_signed(fund, owner_acc) {
            Ok::<(), FundErrorCode>(())
        } else {
            Err::<(), FundErrorCode>(FundErrorCode::Unauthorized)
        },
{
    if !owner_acc.is_signer {
        return Err(FundErrorCode::Unauthorized);
    }
    if !owner_acc.key.eq_id(&fund.owner) {
        return Err(FundErrorCode::Unauthorized);
    }
    Ok(())
}

/// Gate a deposit on the fund still being open.
pub fn fund_open(fund: &Fund) -> (r: Result<(), FundErrorCode>)
    ensures
        r == if fund.open {
            Ok::<(), FundErrorCode>(())
        } else {
            Err::<(), FundErrorCode>(FundErrorCode::FundClosed)
        },
{
    if fund.open {
        Ok(())
    } else {
        Err(FundErrorCode::FundClosed)
    }
}

/// Gate a withdrawal on the fund having been closed first.
pub fn fund_closed(fund: &Fund) -> (r: Result<(), FundErrorCode>)
    ensures
        r == if fund.open {
            Err::<(), FundErrorCode>(FundErrorCode::FundOpen)
        } else {
            Ok::<(), FundErrorCode>(())
        },
{
    if fund.open {
        Err(FundErrorCode::FundOpen)
    } else {
        Ok(())
    }
}

/// What the receipt-NFT check decides: the presented mint handle is the
/// fund's recorded receipt mint, and the depositor's NFT token account is a
/// valid token account of that mint.
pub open spec fn spec_check_nft(
    fund: &Fund,
    nft_mint_acc: &AccountView,
    nft_token_acc: &AccountView,
) -> Result<TokenAccountInfo, FundErrorCode> {
    if nft_mint_acc.key@ != fund.nft_mint@ {
        Err(FundErrorCode::InvalidMint)
    } else {
        match spec_token_gate(nft_token_acc) {
            Err(e) => Err(e),
            Ok(t) => if t.mint@ != fund.nft_mint@ {
                Err(FundErrorCode::InvalidTokenAccountMint)
            } else {
                Ok(t)
            },
        }
    }
}

/// Verify a depositor's receipt-NFT accounts against the fund record.
pub fn check_nft(
    fund: &Fund,
    nft_mint_acc: &AccountView,
    nft_token_acc: &AccountView,
) -> (r: Result<TokenAccountInfo, FundErrorCode>)
    ensures
        r == spec_check_nft(fund, nft_mint_acc, nft_token_acc),
{
    if !nft_mint_acc.key.eq_id(&fund.nft_mint) {
        return Err(FundErrorCode::InvalidMint);
    }
    let t = match token(nft_token_acc) {
        Ok(t) => t,
        Err(e) => {
            return Err(e);
        },
    };
    if !t.mint.eq_id(&fund.nft_mint) {
        return Err(FundErrorCode::InvalidTokenAccountMint);
    }
    Ok(t)
}

/// Whether a whitelist handle is the store bound to this fund: right
/// address and exactly the fixed store size.
pub open spec fn spec_whitelist_bound(whitelist_acc: &AccountView, fund: &Fund) -> bool {
    &&& whitelist_acc.key@ == fund.whitelist@
    &&& whitelist_acc.data@.len() == WHITELIST_SIZE
}

/// Load the whitelist store bound to a fund.
pub fn whitelist(whitelist_acc: &AccountView, fund: &Fund) -> (r: Result<Whitelist, FundErrorCode>)
    ensures
        (r is Ok) == spec_whitelist_bound(whitelist_acc, fund),
        r matches Err(e) ==> e == FundErrorCode::WhitelistInvalidData,
        r matches Ok(w) ==> w.wf() && w@ =~= spec_whitelist_slots(whitelist_acc.data@),
{
    if !whitelist_acc.key.eq_id(&fund.whitelist) {
        return Err(FundErrorCode::WhitelistInvalidData);
    }
    let w = match Whitelist::new(whitelist_acc.data.as_slice()) {
        Ok(w) => w,
        Err(e) => {
            return Err(e);
        },
    };
    proof {
        assert(w@ =~= spec_whitelist_slots(whitelist_acc.data@));
    }
    Ok(w)
}

/// What the depositor check decides: the whitelist is bound to the fund and
/// lists the depositor.
pub open spec fn spec_check_depositor_err(
    whitelist_acc: &AccountView,
    fund: &Fund,
    depositor: Seq<u8>,
) -> Option<FundErrorCode> {
    if !spec_whitelist_bound(whitelist_acc, fund) {
        Some(FundErrorCode::WhitelistInvalidData)
    } else if !whitelist_contains(spec_whitelist_slots(whitelist_acc.data@), depositor) {
        Some(FundErrorCode::WhitelistNotFound)
    } else {
        None
    }
}

/// Verify that a depositor is listed in the fund's whitelist.
pub fn check_depositor(
    whitelist_acc: &AccountView,
    fund: &Fund,
    depositor: &Identity,
) -> (r: Result<(), FundErrorCode>)
    ensures
        (r is Ok) == (spec_check_depositor_err(whitelist_acc, fund, depositor@) is None),
        r matches Err(e) ==> Some(e) == spec_check_depositor_err(whitelist_acc, fund, depositor@),
{
    let w = match whitelist(whitelist_acc, fund) {
        Ok(w) => w,
        Err(_) => {
            return Err(FundErrorCode::WhitelistInvalidData);
        },
    };
    if w.contains(depositor) {
        Ok(())
    } else {
        Err(FundErrorCode::WhitelistNotFound)
    }
}

} // verus!

//! The interface to the external fungible-token service: parsing its token
//! accounts and mints, and recognizing its program address. The token
//! program's layouts are its own; they are parsed by its code, never
//! reimplemented here.

use vstd::prelude::*;
use crate::identity::Identity;
#[allow(deprecated)]
use spl_token::state::{Account as SplTokenAccount, AccountState as SplAccountState, Mint as SplMint};
use spl_token::solana_program::program_pack::Pack as SplPack;

verus! {

/// The lifecycle state of a token account.
#[derive(Clone, Copy, Debug, PartialEq, Eq, Structural)]
pub enum TokenAccountState {
    Uninitialized,
    Initialized,
    Frozen,
}

/// What the ledger core reads of a token account.
#[derive(Clone, Copy, Debug)]
pub struct TokenAccountInfo {
    /// The mint this account holds tokens of.
    pub mint: Identity,
    /// The wallet or authority that owns the tokens.
    pub owner: Identity,
    /// The token balance.
    pub amount: u64,
    /// The account's lifecycle state.
    pub state: TokenAccountState,
}

/// What the ledger core reads of a mint.
#[derive(Clone, Copy, Debug)]
pub struct MintInfo {
    /// Who may mint further tokens, if anyone.
    pub mint_authority: Option<Identity>,
    /// Total supply of the token.
    pub supply: u64,
    /// Decimal places of the token.
    pub decimals: u8,
    /// Whether the mint has been initialized.
    pub is_initialized: bool,
}

/// What the token program's account parser returns on the given bytes:
/// a function of the bytes alone, `None` where they do not parse.
pub uninterp spec fn spl_token_account_of(data: Seq<u8>) -> Option<TokenAccountInfo>;

/// What the token program's mint parser returns on the given bytes.
pub uninterp spec fn spl_mint_of(data: Seq<u8>) -> Option<MintInfo>;

/// Whether an identity is the token program's own address.
pub uninterp spec fn is_spl_token_program(id: Seq<u8>) -> bool;

/// Relies on `spl_token::state::Account::unpack_unchecked`: parses the token
/// program's fixed 165-byte token-account layout from the bytes alone.
#[verifier::external_body]
pub(crate) fn unpack_token_account(data: &[u8]) -> (r: Option<TokenAccountInfo>)
    ensures
        r == spl_token_account_of(data@),
{
    #[allow(deprecated)]
    match SplTokenAccount::unpack_unchecked(data) {
        Ok(a) => Some(TokenAccountInfo {
            mint: Identity { bytes: a.mint.to_bytes() },
            owner: Identity { bytes: a.owner.to_bytes() },
            amount: a.amount,
            state: match a.state {
                SplAccountState::Uninitialized => TokenAccountState::Uninitialized,
                SplAccountState::Initialized => TokenAccountState::Initialized,
                SplAccountState::Frozen => TokenAccountState::Frozen,
            },
        }),
        Err(_) => None,
    }
}

/// Relies on `spl_token::state::Mint::unpack_unchecked`: parses the token
/// program's fixed 82-byte mint layout from the bytes alone.
#[verifier::external_body]
pub(crate) fn unpack_mint(data: &[u8]) -> (r: Option<MintInfo>)
    ensures
        r == spl_mint_of(data@),
{
    #[allow(deprecated)]
    match SplMint::unpack_unchecked(data) {
        Ok(m) => Some(MintInfo {
            mint_authority: match m.mint_authority {
                spl_token::solana_program::program_option::COption::Some(k) => Some(Identity {
                    bytes: k.to_bytes(),
                }),
                spl_token::solana_program::program_option::COption::None => None,
            },
            supply: m.supply,
            decimals: m.decimals,
            is_initialized: m.is_initialized,
        }),
        Err(_) => None,
    }
}

/// Relies on the constant `spl_token::ID`, the token program's address.
#[verifier::external_body]
pub(crate) fn is_token_program(id: &Identity) -> (r: bool)
    ensures
        r == is_spl_token_program(id@),
{
    id.bytes == spl_token::ID.to_bytes()
}

} // verus!

//! The error codes that the handlers and the access-control gate return.
//! Every failure aborts the whole operation with a specific code; nothing is
//! retried inside the core.

use vstd::prelude::*;

verus! {

/// A specific reason an operation was refused.
#[derive(Clone, Copy, Debug, PartialEq, Eq, Structural)]
pub enum FundErrorCode {
    AlreadyInUse,
    WrongSerialization,
    NotOwnedByProgram,
    NotInitialized,
    InvalidVaultNonce,
    InvalidVault,
    InvalidAccountOwner,
    AlreadyInitialized,
    InvalidMint,
    UnitializedTokenMint,
    Unauthorized,
    InvalidRentSysvar,
    InvalidAccount,
    FundBalanceOverflow,
    FundClosed,
    FundOpen,
    WhitelistInvalidData,
    PubKeyAlreadyExists,
    InvalidMintAuthority,
    NFTMintMissing,
    NFTTokenAccountMissing,
    WhitelistNotFound,
    WhitelistFull,
    InvalidFund,
    InvalidTokenAccountMint,
    InvalidPayBackWithdrawlAddress,
    WithdrawlSizeOverflow,
}

impl FundErrorCode {
    /// The numeric code an error is reported under at the ledger interface.
    pub fn code(&self) -> (r: u32)
        ensures
            r == self.spec_code(),
    {
        match self {
            FundErrorCode::AlreadyInUse => 0,
            FundErrorCode::WrongSerialization => 1,
            FundErrorCode::NotOwnedByProgram => 2,
            FundErrorCode::NotInitialized => 3,
            FundErrorCode::InvalidVaultNonce => 4,
            FundErrorCode::InvalidVault => 5,
            FundErrorCode::InvalidAccountOwner => 6,
            FundErrorCode::AlreadyInitialized => 7,
            FundErrorCode::InvalidMint => 8,
            FundErrorCode::UnitializedTokenMint => 9,
            FundErrorCode::Unauthorized => 10,
            FundErrorCode::InvalidRentSysvar => 11,
            FundErrorCode::InvalidAccount => 12,
            FundErrorCode::FundBalanceOverflow => 13,
            FundErrorCode::FundClosed => 14,
            FundErrorCode::FundOpen => 15,
            FundErrorCode::WhitelistInvalidData => 16,
            FundErrorCode::PubKeyAlreadyExists => 17,
            FundErrorCode::InvalidMintAuthority => 18,
            FundErrorCode::NFTMintMissing => 19,
            FundErrorCode::NFTTokenAccountMissing => 20,
            FundErrorCode::WhitelistNotFound => 21,
            FundErrorCode::WhitelistFull => 22,
            FundErrorCode::InvalidFund => 23,
            FundErrorCode::InvalidTokenAccountMint => 24,
            FundErrorCode::InvalidPayBackWithdrawlAddress => 25,
            FundErrorCode::WithdrawlSizeOverflow => 26,
        }
    }

    /// The numeric code, as a specification function.
    pub open spec fn spec_code(&self) -> u32 {
        match self {
            FundErrorCode::AlreadyInUse => 0,
            FundErrorCode::WrongSerialization => 1,
            FundErrorCode::NotOwnedByProgram => 2,
            FundErrorCode::NotInitialized => 3,
            FundErrorCode::InvalidVaultNonce => 4,
            FundErrorCode::InvalidVault => 5,
            FundErrorCode::InvalidAccountOwner => 6,
            FundErrorCode::AlreadyInitialized => 7,
            FundErrorCode::InvalidMint => 8,
            FundErrorCode::UnitializedTokenMint => 9,
            FundErrorCode::Unauthorized => 10,
            FundErrorCode::InvalidRentSysvar => 11,
            FundErrorCode::InvalidAccount => 12,
            FundErrorCode::FundBalanceOverflow => 13,
            FundErrorCode::FundClosed => 14,
            FundErrorCode::FundOpen => 15,
            FundErrorCode::WhitelistInvalidData => 16,
            FundErrorCode::PubKeyAlreadyExists => 17,
            FundErrorCode::InvalidMintAuthority => 18,
            FundErrorCode::NFTMintMissing => 19,
            FundErrorCode::NFTTokenAccountMissing => 20,
            FundErrorCode::WhitelistNotFound => 21,
            FundErrorCode::WhitelistFull => 22,
            FundErrorCode::InvalidFund => 23,
            FundErrorCode::InvalidTokenAccountMint => 24,
            FundErrorCode::InvalidPayBackWithdrawlAddress => 25,
            FundErrorCode::WithdrawlSizeOverflow => 26,
        }
    }
}

} // verus!

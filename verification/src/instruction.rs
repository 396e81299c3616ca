//! The operation set: each request is a tagged instruction naming its
//! arguments; the ordered account list it carries is documented per variant
//! and decoded positionally by the processor.

use vstd::prelude::*;
use crate::fund::FundType;
use crate::identity::Identity;

verus! {

/// One requested operation on a fund.
#[derive(Clone, Copy, Debug)]
pub enum FundInstruction {
    /// Initializes a new fund and its record.
    ///
    /// Accounts: fund record, token vault, mint, whitelist store,
    /// then for a raise the receipt-NFT token account and mint.
    Initialize { owner: Identity, authority: Identity, max_balance: u64, fund_type: FundType },
    /// Sends tokens to a fund.
    ///
    /// Accounts: token vault, depositor token account, depositor authority
    /// (signer), fund record, vault custody authority, token program, then
    /// for a raise the receipt-NFT mint and token account, and for a
    /// private raise the whitelist store.
    Deposit { amount: u64 },
    /// Withdraws funds from the vault after the fund has closed.
    ///
    /// Accounts: token vault, fund record, beneficiary (signer), vault
    /// custody authority, token program.
    Withdraw { amount: u64 },
    /// Closes the fund to further deposits.
    ///
    /// Accounts: fund record, fund owner (signer).
    Close,
    /// Adds an entry to the fund's whitelist.
    ///
    /// Accounts: fund record, fund owner (signer), whitelist store.
    WhitelistAdd { entry: Identity },
    /// Removes an entry from the fund's whitelist.
    ///
    /// Accounts: fund record, fund owner (signer), whitelist store.
    WhitelistDelete { entry: Identity },
    /// Registers a payback amount for receipt-NFT holders.
    ///
    /// Accounts: fund record, fund owner (signer), token program.
    RegisterPayback { amount: u64 },
    /// Lets a receipt-NFT holder withdraw from the payback pool.
    ///
    /// Accounts: token program, holder's receipt-NFT token account, payback
    /// vault custody authority, payback vault, fund record, claimant
    /// (signer), destination token account.
    PaybackWithdraw { amount: u64 },
}

} // verus!

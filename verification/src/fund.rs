//! The fund record: the persistent state of one pooled-fund instance, and the
//! elementary transitions on it. Handlers mutate a record only through these
//! methods, after the access-control gate has passed.

use vstd::prelude::*;
use crate::identity::Identity;

verus! {

/// The two kinds of fund: a simple donation pool, or an investment-style
/// raise that accrues shares and may be gated by a whitelist.
#[derive(Clone, Copy, Debug, PartialEq, Eq, Structural)]
pub enum FundType {
    /// A plain donation pool.
    FundMe,
    /// A raise; `private` raises additionally gate deposits by a whitelist.
    Raise { private: bool },
}

impl Default for FundType {
    fn default() -> (r: Self)
        ensures
            r == FundType::FundMe,
    {
        FundType::FundMe
    }
}

/// The persistent record of one fund. Closing a fund sets `open` to false;
/// the record itself is never deleted.
#[derive(Clone, Copy, Debug)]
pub struct Fund {
    /// Whether Initialize has run on this record.
    pub initialized: bool,
    /// Whether the fund still accepts deposits.
    pub open: bool,
    /// The kind of fund.
    pub fund_type: FundType,
    /// Who may close, withdraw and manage the whitelist.
    pub owner: Identity,
    /// The owner's delegated authority.
    pub authority: Identity,
    /// The largest balance the fund may reach.
    pub max_balance: u64,
    /// The quote-asset balance held in the vault.
    pub balance: u64,
    /// Nonce from which the vault's custody address is derived.
    pub nonce: u8,
    /// The quote asset's mint.
    pub mint: Identity,
    /// The token vault custodied by the program for this fund.
    pub vault: Identity,
    /// Accumulated depositor shares; never decreases.
    pub shares: u64,
    /// Token account associated with the receipt-NFT mint.
    pub nft_account: Identity,
    /// Mint of the receipt NFT handed to depositors of a raise.
    pub nft_mint: Identity,
    /// The whitelist store of a private raise.
    pub whitelist: Identity,
    /// Vault holding the secondary payback pool.
    pub payback_vault: Identity,
    /// Total paid into the payback pool.
    pub payback_total: u64,
    /// Accumulated payback rate per share.
    pub payback_per_share: u64,
}

impl Fund {
    /// Whether the fund is a raise (of either visibility).
    pub open spec fn is_raise(&self) -> bool {
        self.fund_type is Raise
    }

    /// Whether the fund is a private raise.
    pub open spec fn is_private_raise(&self) -> bool {
        self.fund_type == (FundType::Raise { private: true })
    }

    /// The record's internal invariant. It holds of a fresh (all-zero)
    /// record, is established by Initialize, and is preserved by every
    /// successful transition.
    pub open spec fn wf(&self) -> bool {
        &&& self.balance <= self.max_balance
        &&& self.shares <= self.max_balance
        &&& (self.open && self.is_raise()) ==> self.shares == self.balance
        &&& self.fund_type is FundMe ==> self.shares == 0
        &&& self.payback_per_share <= self.payback_total
    }

    /// Decide the record's invariant at run time.
    pub fn is_wf(&self) -> (r: bool)
        ensures
            r == self.wf(),
    {
        let raise = match self.fund_type {
            FundType::Raise { private: _ } => true,
            FundType::FundMe => false,
        };
        self.balance <= self.max_balance && self.shares <= self.max_balance && (!(self.open
            && raise) || self.shares == self.balance) && (raise || self.shares == 0)
            && self.payback_per_share <= self.payback_total
    }

    /// The record after a deposit of `amount`: the balance grows, and on a
    /// raise the shares grow with it.
    pub open spec fn with_deposit(self, amount: u64) -> Fund {
        Fund {
            balance: (self.balance + amount) as u64,
            shares: if self.is_raise() {
                (self.shares + amount) as u64
            } else {
                self.shares
            },
            ..self
        }
    }

    /// Add a deposit to the balance, and to the shares on a raise.
    pub fn add(&mut self, amount: u64)
        requires
            old(self).balance + amount <= old(self).max_balance,
            old(self).is_raise() ==> old(self).shares + amount <= u64::MAX,
        ensures
            *final(self) == old(self).with_deposit(amount),
    {
        self.balance = self.balance + amount;
        let raise = match self.fund_type {
            FundType::Raise { private: _ } => true,
            FundType::FundMe => false,
        };
        if raise {
            self.shares = self.shares + amount;
        }
    }

    /// Take a withdrawal out of the balance. Shares are unaffected.
    pub fn deduct(&mut self, amount: u64)
        requires
            amount <= old(self).balance,
        ensures
            *final(self) == (Fund { balance: (old(self).balance - amount) as u64, ..*old(self) }),
    {
        self.balance = self.balance - amount;
    }

    /// Close the fund to further deposits. Idempotent: a second call leaves
    /// the record exactly as the first did.
    pub fn close_fund(&mut self)
        ensures
            *final(self) == (Fund { open: false, ..*old(self) }),
    {
        if self.open {
            self.open = false;
        }
    }

    /// Add to the payback pool's recorded total.
    pub fn add_payback_bal(&mut self, amount: u64)
        requires
            old(self).payback_total + amount <= u64::MAX,
        ensures
            *final(self) == (Fund {
                payback_total: (old(self).payback_total + amount) as u64,
                ..*old(self)
            }),
    {
        self.payback_total = self.payback_total + amount;
    }

    /// Accumulate into the payback rate per share.
    pub fn add_payback_per_share(&mut self, amount: u64)
        requires
            old(self).payback_per_share + amount <= u64::MAX,
        ensures
            *final(self) == (Fund {
                payback_per_share: (old(self).payback_per_share + amount) as u64,
                ..*old(self)
            }),
    {
        self.payback_per_share = self.payback_per_share + amount;
    }

    /// The unit share distribution.
    pub fn get_share_dist() -> (r: u64)
        ensures
            r == 1,
    {
        1
    }
}

} // verus!

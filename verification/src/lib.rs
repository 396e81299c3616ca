//! A custodial pooled-fund ledger: fund records, an access-control gate,
//! a vault-custody protocol, and the state-transition handlers that decide,
//! for every requested operation, whether it is legal and how balances and
//! shares change.

pub mod access_control;
pub mod account;
pub mod close;
pub mod codec;
pub mod custody;
pub mod deposit;
pub mod effects;
pub mod error;
pub mod fund;
pub mod identity;
pub mod initialize;
pub mod instruction;
pub mod laws;
pub mod payback_withdraw;
pub mod processor;
pub mod register_payback;
pub mod token;
pub mod whitelist;
pub mod whitelist_add;
pub mod whitelist_delete;
pub mod withdraw;

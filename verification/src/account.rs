//! Account handles as the handlers see them: the address, the owning
//! program, whether the caller signed for the account, and the account's
//! raw stored data.

use vstd::prelude::*;
use crate::identity::Identity;

verus! {

/// An optional account handle, as a value.
pub open spec fn opt_view(a: Option<&AccountView>) -> Option<AccountView> {
    match a {
        Some(x) => Some(*x),
        None => None,
    }
}

/// One account named by an operation.
#[derive(Debug)]
pub struct AccountView {
    /// The account's address.
    pub key: Identity,
    /// The program that owns the account.
    pub owner: Identity,
    /// Whether the submitting caller signed for this account.
    pub is_signer: bool,
    /// The account's stored bytes.
    pub data: Vec<u8>,
}

impl AccountView {
    pub fn new(key: Identity, owner: Identity, is_signer: bool, data: Vec<u8>) -> (r: AccountView)
        ensures
            r.key@ == key@,
            r.owner@ == owner@,
            r.is_signer == is_signer,
            r.data@ == data@,
    {
        AccountView { key, owner, is_signer, data }
    }
}

} // verus!

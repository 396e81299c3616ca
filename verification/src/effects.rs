//! What a successful operation asks of the outside world: the calls into the
//! external transfer service that must be performed after the record change
//! commits. The core never moves tokens itself; it emits these directives.

use vstd::prelude::*;
use crate::custody::SignerSeeds;
use crate::fund::Fund;
use crate::identity::Identity;

verus! {

/// One required call into the external transfer service. A directive
/// carrying signer seeds must be signed with the custody proof derived from
/// them.
#[derive(Clone, Copy, Debug)]
pub enum TokenDirective {
    /// Move `amount` tokens from `source` to `destination`, authorized by
    /// `authority`.
    Transfer {
        source: Identity,
        destination: Identity,
        authority: Identity,
        amount: u64,
        custody: Option<SignerSeeds>,
    },
    /// Mint `amount` tokens of `mint` to `destination`, authorized by
    /// `authority`.
    MintTo {
        mint: Identity,
        destination: Identity,
        authority: Identity,
        amount: u64,
        custody: Option<SignerSeeds>,
    },
}

/// The outcome of a record-changing operation: the next record, and the
/// external calls it requires.
#[derive(Debug)]
pub struct FundEffect {
    /// The record to store back over the fund account.
    pub fund: Fund,
    /// The transfer-service calls to perform, in order.
    pub directives: Vec<TokenDirective>,
}

} // verus!

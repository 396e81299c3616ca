//! The vault-custody protocol: a custody address is derived
//! deterministically from a fund's address and its stored nonce, and moving
//! tokens out of a vault requires the signer seeds that prove authority over
//! that derived address.

use vstd::prelude::*;
use crate::identity::Identity;

verus! {

/// What the ledger's address derivation returns for a fund address, nonce
/// and program id: a deterministic function of the three, `None` exactly
/// when the derivation fails for that nonce.
pub uninterp spec fn custody_address(fund: Seq<u8>, nonce: u8, program: Seq<u8>) -> Option<Seq<u8>>;

/// The delegated-signing proof consumed by a call into the external
/// transfer service: the seeds from which the custody address was derived.
#[derive(Clone, Copy, Debug)]
pub struct SignerSeeds {
    /// The fund record's address.
    pub fund: Identity,
    /// The fund's stored nonce.
    pub nonce: u8,
}

/// Relies on `solana_pubkey::Pubkey::create_program_address` with the seeds
/// `[fund, [nonce]]`: deterministic in the fund address, nonce and program
/// id, and failing exactly when the derived bytes land on the curve.
#[verifier::external_body]
pub(crate) fn derive_custody_address(fund: &Identity, nonce: u8, program_id: &Identity) -> (r: Option<
    Identity,
>)
    ensures
        (r is Some) == (custody_address(fund@, nonce, program_id@) is Some),
        r matches Some(a) ==> custody_address(fund@, nonce, program_id@) == Some(a@),
{
    let program = solana_pubkey::Pubkey::new_from_array(program_id.bytes);
    match solana_pubkey::Pubkey::create_program_address(&[&fund.bytes, &[nonce]], &program) {
        Ok(pk) => Some(Identity { bytes: pk.to_bytes() }),
        Err(_) => None,
    }
}

} // verus!

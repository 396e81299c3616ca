//! The processor: routes a decoded instruction to its handler. It first
//! runs the fund record past the access-control load checks and the record
//! invariant. Each operation is all-or-nothing: any failure returns an
//! error and asks for no state change and no external call.

use vstd::prelude::*;
use crate::access_control;
use crate::account::AccountView;
use crate::close;
use crate::codec::{lemma_pack_fund_injective, spec_pack_fund};
use crate::deposit;
use crate::effects::TokenDirective;
use crate::error::FundErrorCode;
use crate::fund::Fund;
use crate::identity::Identity;
use crate::initialize;
use crate::instruction::FundInstruction;
use crate::payback_withdraw;
use crate::register_payback;
use crate::whitelist::{Whitelist, spec_whitelist_slots};
use crate::whitelist_add;
use crate::whitelist_delete;
use crate::withdraw;

verus! {

/// What an accepted operation changed, and what it asks of the outside.
#[derive(Debug)]
pub enum Outcome {
    /// The fund record changed: store it back and perform the directives.
    FundChanged { fund: Fund, directives: Vec<TokenDirective> },
    /// The whitelist store changed: store it back.
    WhitelistChanged { whitelist: Whitelist },
    /// Only external transfers are required; no stored state changed.
    Transfers { directives: Vec<TokenDirective> },
}

/// Whether every record this byte string may encode satisfies the record
/// invariant. The handlers only ever store records that do; a stored record
/// breaking it is corrupt.
pub open spec fn spec_record_wf(data: Seq<u8>) -> bool {
    forall|f: Fund| data == spec_pack_fund(f) ==> f.wf()
}

/// The error loading a fund record reports, if any: the load gate's own
/// checks, then the record invariant.
pub open spec fn spec_load_error(acc: &AccountView, program_id: &Identity) -> Option<
    FundErrorCode,
> {
    if !access_control::spec_fund_gate_ok(acc, program_id) {
        Some(access_control::spec_fund_gate_err(acc, program_id))
    } else if !spec_record_wf(acc.data@) {
        Some(FundErrorCode::WrongSerialization)
    } else {
        None
    }
}

/// The account at `i`, where the list is long enough to hold it.
pub open spec fn spec_opt_account(accounts: Seq<AccountView>, i: int) -> Option<AccountView> {
    if accounts.len() > i {
        Some(accounts[i])
    } else {
        None
    }
}

/// Routes each decoded operation to its handler.
pub struct Processor {}

impl Processor {
    /// Load a fund record: run the access-control load checks, then the
    /// record invariant.
    fn load_fund(acc: &AccountView, program_id: &Identity) -> (r: Result<Fund, FundErrorCode>)
        ensures
            (r is Ok) == (spec_load_error(acc, program_id) is None),
            r matches Err(e) ==> Some(e) == spec_load_error(acc, program_id),
            r matches Ok(f) ==> acc.data@ == spec_pack_fund(f) && f.wf() && f.initialized,
    {
        let f = access_control::fund(acc, program_id)?;
        if !f.is_wf() {
            proof {
                assert(!spec_record_wf(acc.data@)) by {
                    assert(acc.data@ == spec_pack_fund(f) && !f.wf());
                }
            }
            return Err(FundErrorCode::WrongSerialization);
        }
        proof {
            assert forall|f2: Fund| acc.data@ == spec_pack_fund(f2) implies f2.wf() by {
                lemma_pack_fund_injective(f2, f);
            }
        }
        Ok(f)
    }

    /// Route one operation. Every instruction names its accounts in a fixed
    /// order; a list too short for it is rejected as an invalid account
    /// list. For every record-touching operation the record is loaded
    /// first, and the outcome is exactly what the named handler's contract
    /// states for the loaded record.
    #[verifier::rlimit(100)]
    pub fn process(
        program_id: &Identity,
        instruction: FundInstruction,
        accounts: &Vec<AccountView>,
    ) -> (r: Result<Outcome, FundErrorCode>)
        ensures
            match instruction {
                FundInstruction::Initialize { owner, authority, max_balance, fund_type } => {
                    &&& accounts@.len() < 4 ==> r == Err::<Outcome, FundErrorCode>(
                        FundErrorCode::InvalidAccount,
                    )
                    &&& accounts@.len() >= 4 ==> {
                        let err = initialize::spec_initialize_error(
                            program_id,
                            fund_type,
                            &accounts@[0],
                            &accounts@[1],
                            &accounts@[2],
                            spec_opt_account(accounts@, 5),
                            spec_opt_account(accounts@, 4),
                        );
                        &&& (r is Ok) == (err is None)
                        &&& (r matches Err(e) ==> Some(e) == err)
                        &&& (r matches Ok(o) ==> o matches Outcome::FundChanged {
                            fund: f,
                            directives,
                        } && initialize::spec_initialized_fund(
                            f,
                            owner,
                            authority,
                            max_balance,
                            fund_type,
                            &accounts@[1],
                            &accounts@[2],
                            &accounts@[3],
                            spec_opt_account(accounts@, 5),
                            spec_opt_account(accounts@, 4),
                        ) && directives@ =~= Seq::<TokenDirective>::empty())
                    }
                },
                FundInstruction::Deposit { amount } => {
                    &&& accounts@.len() < 6 ==> r == Err::<Outcome, FundErrorCode>(
                        FundErrorCode::InvalidAccount,
                    )
                    &&& accounts@.len() >= 6 ==> {
                        &&& (spec_load_error(&accounts@[3], program_id) matches Some(e) ==> r
                            == Err::<Outcome, FundErrorCode>(e))
                        &&& spec_load_error(&accounts@[3], program_id) is None ==> forall|f: Fund|
                            accounts@[3].data@ == spec_pack_fund(f) ==> {
                                let err = deposit::spec_deposit_error(
                                    program_id,
                                    amount,
                                    &f,
                                    &accounts@[3],
                                    &accounts@[0],
                                    &accounts@[2],
                                    &accounts@[4],
                                    spec_opt_account(accounts@, 6),
                                    spec_opt_account(accounts@, 7),
                                    spec_opt_account(accounts@, 8),
                                );
                                &&& (r is Ok) == (err is None)
                                &&& (r matches Err(e) ==> Some(e) == err)
                                &&& (r matches Ok(o) ==> o matches Outcome::FundChanged {
                                    fund: f2,
                                    directives,
                                } && f2 == f.with_deposit(amount) && f2.wf() && if f.is_raise() {
                                    spec_opt_account(accounts@, 7) matches Some(nta)
                                        && directives@ =~= seq![
                                        deposit::spec_deposit_mint(
                                            amount,
                                            &f,
                                            &accounts@[3],
                                            &accounts@[4],
                                            &nta,
                                        ),
                                        deposit::spec_deposit_transfer(
                                            amount,
                                            &accounts@[0],
                                            &accounts@[1],
                                            &accounts@[2],
                                        ),
                                    ]
                                } else {
                                    directives@ =~= seq![
                                        deposit::spec_deposit_transfer(
                                            amount,
                                            &accounts@[0],
                                            &accounts@[1],
                                            &accounts@[2],
                                        ),
                                    ]
                                })
                            }
                    }
                },
                FundInstruction::Withdraw { amount } => {
                    &&& accounts@.len() < 5 ==> r == Err::<Outcome, FundErrorCode>(
                        FundErrorCode::InvalidAccount,
                    )
                    &&& accounts@.len() >= 5 ==> {
                        &&& (spec_load_error(&accounts@[1], program_id) matches Some(e) ==> r
                            == Err::<Outcome, FundErrorCode>(e))
                        &&& spec_load_error(&accounts@[1], program_id) is None ==> forall|f: Fund|
                            accounts@[1].data@ == spec_pack_fund(f) ==> {
                                let err = withdraw::spec_withdraw_error(
                                    program_id,
                                    amount,
                                    &f,
                                    &accounts@[1],
                                    &accounts@[2],
                                    &accounts@[0],
                                    &accounts@[3],
                                );
                                &&& (r is Ok) == (err is None)
                                &&& (r matches Err(e) ==> Some(e) == err)
                                &&& (r matches Ok(o) ==> o matches Outcome::FundChanged {
                                    fund: f2,
                                    directives,
                                } && f2 == (Fund {
                                    balance: (f.balance - amount) as u64,
                                    ..f
                                }) && directives@ =~= seq![
                                    withdraw::spec_withdraw_directive(
                                        amount,
                                        &f,
                                        &accounts@[1],
                                        &accounts@[2],
                                        &accounts@[0],
                                        &accounts@[3],
                                    ),
                                ])
                            }
                    }
                },
                FundInstruction::Close => {
                    &&& accounts@.len() < 2 ==> r == Err::<Outcome, FundErrorCode>(
                        FundErrorCode::InvalidAccount,
                    )
                    &&& accounts@.len() >= 2 ==> {
                        &&& (spec_load_error(&accounts@[0], program_id) matches Some(e) ==> r
                            == Err::<Outcome, FundErrorCode>(e))
                        &&& spec_load_error(&accounts@[0], program_id) is None ==> forall|f: Fund|
                            accounts@[0].data@ == spec_pack_fund(f) ==> {
                                &&& (r is Ok) == access_control::spec_owner_signed(
                                    &f,
                                    &accounts@[1],
                                )
                                &&& (r matches Err(e) ==> e == FundErrorCode::Unauthorized)
                                &&& (r matches Ok(o) ==> o matches Outcome::FundChanged {
                                    fund: f2,
                                    directives,
                                } && f2 == close::spec_closed_fund(f) && directives@
                                    =~= Seq::<TokenDirective>::empty())
                            }
                    }
                },
                FundInstruction::WhitelistAdd { entry } => {
                    &&& accounts@.len() < 3 ==> r == Err::<Outcome, FundErrorCode>(
                        FundErrorCode::InvalidAccount,
                    )
                    &&& accounts@.len() >= 3 ==> {
                        &&& (spec_load_error(&accounts@[0], program_id) matches Some(e) ==> r
                            == Err::<Outcome, FundErrorCode>(e))
                        &&& spec_load_error(&accounts@[0], program_id) is None ==> forall|f: Fund|
                            accounts@[0].data@ == spec_pack_fund(f) ==> {
                                let err = whitelist_add::spec_whitelist_add_error(
                                    program_id,
                                    &f,
                                    &accounts@[0],
                                    &accounts@[1],
                                    &accounts@[2],
                                    entry@,
                                );
                                &&& (r is Ok) == (err is None)
                                &&& (r matches Err(e) ==> Some(e) == err)
                                &&& (r matches Ok(o) ==> o matches Outcome::WhitelistChanged {
                                    whitelist: w,
                                } && w.wf() && whitelist_add::spec_added_store(
                                    w@,
                                    spec_whitelist_slots(accounts@[2].data@),
                                    entry@,
                                ))
                            }
                    }
                },
                FundInstruction::WhitelistDelete { entry } => {
                    &&& accounts@.len() < 3 ==> r == Err::<Outcome, FundErrorCode>(
                        FundErrorCode::InvalidAccount,
                    )
                    &&& accounts@.len() >= 3 ==> {
                        &&& (spec_load_error(&accounts@[0], program_id) matches Some(e) ==> r
                            == Err::<Outcome, FundErrorCode>(e))
                        &&& spec_load_error(&accounts@[0], program_id) is None ==> forall|f: Fund|
                            accounts@[0].data@ == spec_pack_fund(f) ==> {
                                let err = whitelist_delete::spec_whitelist_delete_error(
                                    program_id,
                                    &f,
                                    &accounts@[0],
                                    &accounts@[1],
                                    &accounts@[2],
                                    entry@,
                                );
                                &&& (r is Ok) == (err is None)
                                &&& (r matches Err(e) ==> Some(e) == err)
                                &&& (r matches Ok(o) ==> o matches Outcome::WhitelistChanged {
                                    whitelist: w,
                                } && w.wf() && whitelist_delete::spec_deleted_store(
                                    w@,
                                    spec_whitelist_slots(accounts@[2].data@),
                                    entry@,
                                ))
                            }
                    }
                },
                FundInstruction::RegisterPayback { amount } => {
                    &&& accounts@.len() < 3 ==> r == Err::<Outcome, FundErrorCode>(
                        FundErrorCode::InvalidAccount,
                    )
                    &&& accounts@.len() >= 3 ==> {
                        &&& (spec_load_error(&accounts@[0], program_id) matches Some(e) ==> r
                            == Err::<Outcome, FundErrorCode>(e))
                        &&& spec_load_error(&accounts@[0], program_id) is None ==> forall|f: Fund|
                            accounts@[0].data@ == spec_pack_fund(f) ==> {
                                let err = register_payback::spec_register_payback_error(
                                    program_id,
                                    amount,
                                    &f,
                                    &accounts@[0],
                                    &accounts@[1],
                                );
                                &&& (r is Ok) == (err is None)
                                &&& (r matches Err(e) ==> Some(e) == err)
                                &&& (r matches Ok(o) ==> o matches Outcome::FundChanged {
                                    fund: f2,
                                    directives,
                                } && f2 == register_payback::spec_register_payback_fund(f, amount)
                                    && directives@ =~= Seq::<TokenDirective>::empty())
                            }
                    }
                },
                FundInstruction::PaybackWithdraw { amount } => {
                    &&& accounts@.len() < 7 ==> r == Err::<Outcome, FundErrorCode>(
                        FundErrorCode::InvalidAccount,
                    )
                    &&& accounts@.len() >= 7 ==> {
                        &&& (spec_load_error(&accounts@[4], program_id) matches Some(e) ==> r
                            == Err::<Outcome, FundErrorCode>(e))
                        &&& spec_load_error(&accounts@[4], program_id) is None ==> forall|f: Fund|
                            accounts@[4].data@ == spec_pack_fund(f) ==> {
                                let err = payback_withdraw::spec_payback_withdraw_error(
                                    program_id,
                                    amount,
                                    &f,
                                    &accounts@[4],
                                    &accounts@[5],
                                    &accounts@[1],
                                    &accounts@[6],
                                );
                                &&& (r is Ok) == (err is None)
                                &&& (r matches Err(e) ==> Some(e) == err)
                                &&& (r matches Ok(o) ==> o matches Outcome::Transfers {
                                    directives,
                                } && directives@ =~= seq![
                                    payback_withdraw::spec_payback_withdraw_directive(
                                        amount,
                                        &f,
                                        &accounts@[4],
                                        &accounts@[5],
                                        &accounts@[3],
                                        &accounts@[2],
                                    ),
                                ])
                            }
                    }
                },
            },
    {
        match instruction {
            FundInstruction::Initialize { owner, authority, max_balance, fund_type } => {
                if accounts.len() < 4 {
                    return Err(FundErrorCode::InvalidAccount);
                }
                let nft_token_acc = if accounts.len() > 4 {
                    Some(&accounts[4])
                } else {
                    None
                };
                let nft_mint_acc = if accounts.len() > 5 {
                    Some(&accounts[5])
                } else {
                    None
                };
                let f = initialize::handler(
                    program_id,
                    owner,
                    authority,
                    max_balance,
                    fund_type,
                    &accounts[0],
                    &accounts[1],
                    &accounts[2],
                    &accounts[3],
                    nft_mint_acc,
                    nft_token_acc,
                )?;
                Ok(Outcome::FundChanged { fund: f, directives: Vec::new() })
            },
            FundInstruction::Deposit { amount } => {
                if accounts.len() < 6 {
                    return Err(FundErrorCode::InvalidAccount);
                }
                let f = Self::load_fund(&accounts[3], program_id)?;
                proof {
                    Self::lemma_unique_record(accounts@[3].data@, f);
                }
                let nft_mint_acc = if accounts.len() > 6 {
                    Some(&accounts[6])
                } else {
                    None
                };
                let nft_token_acc = if accounts.len() > 7 {
                    Some(&accounts[7])
                } else {
                    None
                };
                let whitelist_acc = if accounts.len() > 8 {
                    Some(&accounts[8])
                } else {
                    None
                };
                let eff = deposit::handler(
                    program_id,
                    amount,
                    &f,
                    &accounts[3],
                    &accounts[0],
                    &accounts[1],
                    &accounts[2],
                    &accounts[4],
                    nft_mint_acc,
                    nft_token_acc,
                    whitelist_acc,
                )?;
                Ok(Outcome::FundChanged { fund: eff.fund, directives: eff.directives })
            },
            FundInstruction::Withdraw { amount } => {
                if accounts.len() < 5 {
                    return Err(FundErrorCode::InvalidAccount);
                }
                let f = Self::load_fund(&accounts[1], program_id)?;
                proof {
                    Self::lemma_unique_record(accounts@[1].data@, f);
                }
                let eff = withdraw::handler(
                    program_id,
                    amount,
                    &f,
                    &accounts[1],
                    &accounts[2],
                    &accounts[0],
                    &accounts[3],
                )?;
                Ok(Outcome::FundChanged { fund: eff.fund, directives: eff.directives })
            },
            FundInstruction::Close => {
                if accounts.len() < 2 {
                    return Err(FundErrorCode::InvalidAccount);
                }
                let f = Self::load_fund(&accounts[0], program_id)?;
                proof {
                    Self::lemma_unique_record(accounts@[0].data@, f);
                }
                let f2 = close::handler(&f, &accounts[1])?;
                Ok(Outcome::FundChanged { fund: f2, directives: Vec::new() })
            },
            FundInstruction::WhitelistAdd { entry } => {
                if accounts.len() < 3 {
                    return Err(FundErrorCode::InvalidAccount);
                }
                let f = Self::load_fund(&accounts[0], program_id)?;
                proof {
                    Self::lemma_unique_record(accounts@[0].data@, f);
                }
                let w = whitelist_add::handler(
                    program_id,
                    &f,
                    &accounts[0],
                    &accounts[1],
                    &accounts[2],
                    entry,
                )?;
                Ok(Outcome::WhitelistChanged { whitelist: w })
            },
            FundInstruction::WhitelistDelete { entry } => {
                if accounts.len() < 3 {
                    return Err(FundErrorCode::InvalidAccount);
                }
                let f = Self::load_fund(&accounts[0], program_id)?;
                proof {
                    Self::lemma_unique_record(accounts@[0].data@, f);
                }
                let w = whitelist_delete::handler(
                    program_id,
                    &f,
                    &accounts[0],
                    &accounts[1],
                    &accounts[2],
                    entry,
                )?;
                Ok(Outcome::WhitelistChanged { whitelist: w })
            },
            FundInstruction::RegisterPayback { amount } => {
                if accounts.len() < 3 {
                    return Err(FundErrorCode::InvalidAccount);
                }
                let f = Self::load_fund(&accounts[0], program_id)?;
                proof {
                    Self::lemma_unique_record(accounts@[0].data@, f);
                }
                let f2 = register_payback::handler(
                    program_id,
                    amount,
                    &f,
                    &accounts[0],
                    &accounts[1],
                )?;
                Ok(Outcome::FundChanged { fund: f2, directives: Vec::new() })
            },
            FundInstruction::PaybackWithdraw { amount } => {
                if accounts.len() < 7 {
                    return Err(FundErrorCode::InvalidAccount);
                }
                let f = Self::load_fund(&accounts[4], program_id)?;
                proof {
                    Self::lemma_unique_record(accounts@[4].data@, f);
                }
                let d = payback_withdraw::handler(
                    program_id,
                    amount,
                    &f,
                    &accounts[4],
                    &accounts[5],
                    &accounts[1],
                    &accounts[6],
                    &accounts[3],
                    &accounts[2],
                )?;
                let mut directives: Vec<TokenDirective> = Vec::new();
                directives.push(d);
                Ok(Outcome::Transfers { directives })
            },
        }
    }

    /// Only `f` encodes to `data` once `data == spec_pack_fund(f)`.
    proof fn lemma_unique_record(data: Seq<u8>, f: Fund)
        requires
            data == spec_pack_fund(f),
        ensures
            forall|f2: Fund| data == spec_pack_fund(f2) ==> f2 == f,
    {
        assert forall|f2: Fund| data == spec_pack_fund(f2) implies f2 == f by {
            lemma_pack_fund_injective(f2, f);
        }
    }
}

} // verus!

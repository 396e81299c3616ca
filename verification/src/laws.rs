//! The library's laws: properties of whole operation sequences and of the
//! gate cascades, proved once and for all records and inputs.

use vstd::prelude::*;
use crate::access_control;
use crate::account::AccountView;
use crate::deposit::spec_deposit_error;
use crate::error::FundErrorCode;
use crate::fund::{Fund, FundType};
use crate::identity::{Identity, is_zero_identity};
use crate::whitelist::whitelist_contains;
use crate::whitelist_add::spec_added_store;
use crate::whitelist_delete::spec_deleted_store;
use crate::withdraw::spec_withdraw_error;

verus! {

/// The sum of a sequence of deposit amounts.
pub open spec fn spec_sum(amounts: Seq<u64>) -> int
    decreases amounts.len(),
{
    if amounts.len() == 0 {
        0
    } else {
        amounts[0] + spec_sum(amounts.skip(1))
    }
}

/// The record after a sequence of deposits, each of which passed the
/// capacity and openness gates; `None` when some deposit in the sequence
/// would have been rejected.
pub open spec fn spec_apply_deposits(f: Fund, amounts: Seq<u64>) -> Option<Fund>
    decreases amounts.len(),
{
    if amounts.len() == 0 {
        Some(f)
    } else if f.open && f.balance + amounts[0] <= f.max_balance {
        spec_apply_deposits(f.with_deposit(amounts[0]), amounts.skip(1))
    } else {
        None
    }
}

/// On a FundMe fund, every successful deposit sequence adds exactly the sum
/// of the deposited amounts to the balance, the balance never exceeds the
/// maximum, and the shares stay zero.
pub proof fn lemma_fundme_deposits(f: Fund, amounts: Seq<u64>)
    requires
        f.fund_type is FundMe,
        f.wf(),
        spec_apply_deposits(f, amounts) is Some,
    ensures
        ({
            let g = spec_apply_deposits(f, amounts).unwrap();
            &&& g.balance == f.balance + spec_sum(amounts)
            &&& g.balance <= g.max_balance
            &&& g.shares == 0
            &&& g.wf()
        }),
    decreases amounts.len(),
{
    if amounts.len() == 0 {
    } else {
        let f1 = f.with_deposit(amounts[0]);
        assert(f1.wf());
        lemma_fundme_deposits(f1, amounts.skip(1));
    }
}

/// On an open Raise fund, shares and balance move together: after every
/// successful deposit sequence they are equal, and each grew by exactly the
/// sum of the deposited amounts.
pub proof fn lemma_raise_deposits(f: Fund, amounts: Seq<u64>)
    requires
        f.fund_type is Raise,
        f.open,
        f.wf(),
        spec_apply_deposits(f, amounts) is Some,
    ensures
        ({
            let g = spec_apply_deposits(f, amounts).unwrap();
            &&& g.shares == g.balance
            &&& g.balance == f.balance + spec_sum(amounts)
            &&& g.balance <= g.max_balance
            &&& g.wf()
        }),
    decreases amounts.len(),
{
    if amounts.len() == 0 {
    } else {
        let f1 = f.with_deposit(amounts[0]);
        assert(f1.wf());
        lemma_raise_deposits(f1, amounts.skip(1));
    }
}

/// Shares never decrease: a deposit raises them (on a raise) or leaves
/// them (on a FundMe), and closing, withdrawing and registering a payback
/// leave them untouched.
pub proof fn lemma_shares_monotonic(f: Fund, amount: u64)
    requires
        f.is_raise() ==> f.shares + amount <= u64::MAX,
    ensures
        f.with_deposit(amount).shares >= f.shares,
        crate::close::spec_closed_fund(f).shares == f.shares,
        (Fund { balance: (f.balance - amount) as u64, ..f }).shares == f.shares,
        crate::register_payback::spec_register_payback_fund(f, amount).shares == f.shares,
{
}

/// A deposit that would lift the balance above the maximum is rejected with
/// the capacity error whenever it gets as far as the capacity check: the
/// caller signed, the record checks passed, and the vault custody checks
/// passed.
pub proof fn lemma_deposit_capacity_rejected(
    program_id: Identity,
    amount: u64,
    fund: Fund,
    fund_acc: AccountView,
    vault_acc: AccountView,
    depositor_authority_acc: AccountView,
    vault_authority_acc: AccountView,
    nft_mint_acc: Option<AccountView>,
    nft_token_acc: Option<AccountView>,
    whitelist_acc: Option<AccountView>,
)
    requires
        depositor_authority_acc.is_signer,
        fund_acc.owner@ == program_id@,
        fund.initialized,
        access_control::spec_vault_join_err(
            &vault_acc,
            &vault_authority_acc,
            &fund,
            fund_acc.key@,
            &program_id,
        ) is None,
        fund.balance + amount > fund.max_balance,
    ensures
        spec_deposit_error(
            &program_id,
            amount,
            &fund,
            &fund_acc,
            &vault_acc,
            &depositor_authority_acc,
            &vault_authority_acc,
            nft_mint_acc,
            nft_token_acc,
            whitelist_acc,
        ) == Some(FundErrorCode::FundBalanceOverflow),
{
}

/// A withdrawal succeeds only on a closed fund; one attempted while the
/// fund is open fails with exactly the open-fund error whenever it gets as
/// far as the openness check.
pub proof fn lemma_withdraw_only_when_closed(
    program_id: Identity,
    amount: u64,
    fund: Fund,
    fund_acc: AccountView,
    withdraw_acc: AccountView,
    vault_acc: AccountView,
    vault_authority_acc: AccountView,
)
    ensures
        spec_withdraw_error(
            &program_id,
            amount,
            &fund,
            &fund_acc,
            &withdraw_acc,
            &vault_acc,
            &vault_authority_acc,
        ) is None ==> !fund.open,
        (withdraw_acc.is_signer && fund_acc.owner@ == program_id@ && fund.initialized && amount
            <= fund.balance && access_control::spec_vault_join_err(
            &vault_acc,
            &vault_authority_acc,
            &fund,
            fund_acc.key@,
            &program_id,
        ) is None && fund.open) ==> spec_withdraw_error(
            &program_id,
            amount,
            &fund,
            &fund_acc,
            &withdraw_acc,
            &vault_acc,
            &vault_authority_acc,
        ) == Some(FundErrorCode::FundOpen),
{
}

/// Adding the same identity twice fails: after an addition the store lists
/// the identity, so a second addition meets the duplicate check.
pub proof fn lemma_whitelist_add_twice(new: Seq<Seq<u8>>, slots: Seq<Seq<u8>>, entry: Seq<u8>)
    requires
        slots.len() == crate::whitelist::WHITELIST_LEN,
        spec_added_store(new, slots, entry),
    ensures
        whitelist_contains(new, entry),
{
    let i = choose|i: int|
        {
            &&& 0 <= i < crate::whitelist::WHITELIST_LEN
            &&& is_zero_identity(slots[i])
            &&& (forall|j: int| 0 <= j < i ==> !is_zero_identity(slots[j]))
            &&& new == slots.update(i, entry)
        };
    assert(new[i] == entry);
}

/// Deleting an identity that appeared once, then re-adding it, succeeds:
/// after the deletion the store no longer lists the identity, and the
/// cleared slot is empty again.
pub proof fn lemma_whitelist_delete_then_add(new: Seq<Seq<u8>>, slots: Seq<Seq<u8>>, entry: Seq<u8>)
    requires
        slots.len() == crate::whitelist::WHITELIST_LEN,
        spec_deleted_store(new, slots, entry),
        !is_zero_identity(entry),
        forall|i: int, j: int|
            0 <= i < j < slots.len() && slots[i] == entry ==> slots[j] != entry,
    ensures
        !whitelist_contains(new, entry),
        exists|i: int| 0 <= i < new.len() && is_zero_identity(new[i]),
{
    let i = choose|i: int|
        {
            &&& 0 <= i < crate::whitelist::WHITELIST_LEN
            &&& slots[i] == entry
            &&& (forall|j: int| 0 <= j < i ==> slots[j] != entry)
            &&& new == slots.update(i, Seq::new(32, |k: int| 0u8))
        };
    assert(is_zero_identity(new[i]));
    assert forall|j: int| 0 <= j < new.len() implies new[j] != entry by {
        if j != i {
            assert(new[j] == slots[j]);
            if slots[j] == entry {
                if i < j {
                    assert(slots[i] == entry && slots[j] != entry);
                } else {
                    assert(forall|k: int| 0 <= k < i ==> slots[k] != entry);
                }
            }
        }
    }
}

/// A vault-custody mismatch — a failed derivation, or a custody-authority
/// handle that is not the derived address — is rejected by Deposit and by
/// Withdraw, whatever the other inputs.
pub proof fn lemma_custody_mismatch_rejected(
    program_id: Identity,
    amount: u64,
    fund: Fund,
    fund_acc: AccountView,
    vault_acc: AccountView,
    depositor_authority_acc: AccountView,
    withdraw_acc: AccountView,
    vault_authority_acc: AccountView,
    nft_mint_acc: Option<AccountView>,
    nft_token_acc: Option<AccountView>,
    whitelist_acc: Option<AccountView>,
)
    requires
        !access_control::spec_vault_authority_ok(
            &vault_authority_acc,
            fund_acc.key@,
            fund.nonce,
            &program_id,
        ),
    ensures
        spec_deposit_error(
            &program_id,
            amount,
            &fund,
            &fund_acc,
            &vault_acc,
            &depositor_authority_acc,
            &vault_authority_acc,
            nft_mint_acc,
            nft_token_acc,
            whitelist_acc,
        ) is Some,
        spec_withdraw_error(
            &program_id,
            amount,
            &fund,
            &fund_acc,
            &withdraw_acc,
            &vault_acc,
            &vault_authority_acc,
        ) is Some,
{
    assert(access_control::spec_vault_join_err(
        &vault_acc,
        &vault_authority_acc,
        &fund,
        fund_acc.key@,
        &program_id,
    ) is Some);
}

/// A vault whose token owner is not the derived custody address is
/// rejected by Initialize, whatever the other inputs.
pub proof fn lemma_initialize_custody_mismatch_rejected(
    program_id: Identity,
    fund_type: FundType,
    fund_acc: AccountView,
    vault_acc: AccountView,
    mint_acc: AccountView,
    nft_mint_acc: Option<AccountView>,
    nft_token_acc: Option<AccountView>,
)
    requires
        ({
            ||| crate::custody::custody_address(
                fund_acc.key@,
                crate::initialize::CREATION_NONCE,
                program_id@,
            ) is None
            ||| (access_control::spec_token_gate(&vault_acc) matches Ok(v)
                && crate::custody::custody_address(
                fund_acc.key@,
                crate::initialize::CREATION_NONCE,
                program_id@,
            ) matches Some(va) && v.owner@ != va)
        }),
    ensures
        crate::initialize::spec_initialize_error(
            &program_id,
            fund_type,
            &fund_acc,
            &vault_acc,
            &mint_acc,
            nft_mint_acc,
            nft_token_acc,
        ) is Some,
{
}

} // verus!

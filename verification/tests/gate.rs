#![allow(deprecated)]

use solana_pubkey::Pubkey;
use spl_token::solana_program::program_option::COption;
use spl_token::solana_program::program_pack::Pack;
use spl_token::state::{Account as SplAccount, AccountState, Mint as SplMint};
use squifi::access_control;
use squifi::account::AccountView;
use squifi::error::FundErrorCode;
use squifi::fund::{Fund, FundType};
use squifi::identity::Identity;

fn id(b: u8) -> Identity {
    Identity::new([b; 32])
}

fn spl_id() -> Identity {
    Identity::new(spl_token::ID.to_bytes())
}

fn token_account_bytes(mint: [u8; 32], owner: [u8; 32], amount: u64, state: AccountState) -> Vec<u8> {
    let acc = SplAccount {
        mint: Pubkey::new_from_array(mint),
        owner: Pubkey::new_from_array(owner),
        amount,
        delegate: COption::None,
        state,
        is_native: COption::None,
        delegated_amount: 0,
        close_authority: COption::None,
    };
    let mut buf = vec![0u8; SplAccount::LEN];
    SplAccount::pack(acc, &mut buf).unwrap();
    buf
}

fn mint_bytes(authority: Option<[u8; 32]>, supply: u64, initialized: bool) -> Vec<u8> {
    let m = SplMint {
        mint_authority: match authority {
            Some(a) => COption::Some(Pubkey::new_from_array(a)),
            None => COption::None,
        },
        supply,
        decimals: 6,
        is_initialized: initialized,
        freeze_authority: COption::None,
    };
    let mut buf = vec![0u8; SplMint::LEN];
    SplMint::pack(m, &mut buf).unwrap();
    buf
}

/// A fund address for which the custody derivation with the given nonce
/// succeeds, and the derived custody address.
fn fund_key_with_custody(program: [u8; 32], nonce: u8) -> ([u8; 32], [u8; 32]) {
    let program_pk = Pubkey::new_from_array(program);
    let mut b: u8 = 0;
    loop {
        let key = [b; 32];
        if let Ok(va) = Pubkey::create_program_address(&[&key, &[nonce]], &program_pk) {
            return (key, va.to_bytes());
        }
        b = b.wrapping_add(1);
        assert!(b != 0, "no fund key with a valid custody derivation found");
    }
}

/// A fund address for which the custody derivation with the given nonce
/// fails.
fn fund_key_without_custody(program: [u8; 32], nonce: u8) -> [u8; 32] {
    let program_pk = Pubkey::new_from_array(program);
    let mut b: u8 = 0;
    loop {
        let key = [b; 32];
        if Pubkey::create_program_address(&[&key, &[nonce]], &program_pk).is_err() {
            return key;
        }
        b = b.wrapping_add(1);
        assert!(b != 0, "no fund key with a failing custody derivation found");
    }
}

fn sample_fund(vault: Identity) -> Fund {
    Fund {
        initialized: true,
        open: true,
        fund_type: FundType::FundMe,
        owner: id(1),
        authority: id(1),
        max_balance: 1000,
        balance: 100,
        nonce: 0,
        mint: id(4),
        vault,
        shares: 0,
        nft_account: id(0),
        nft_mint: id(0),
        whitelist: id(0),
        payback_vault: id(0),
        payback_total: 0,
        payback_per_share: 0,
    }
}

#[test]
fn token_accepts_an_initialized_account() {
    let data = token_account_bytes([4; 32], [9; 32], 77, AccountState::Initialized);
    let acc = AccountView::new(id(5), spl_id(), false, data);
    let t = access_control::token(&acc).unwrap();
    assert_eq!(t.mint.bytes, [4u8; 32]);
    assert_eq!(t.owner.bytes, [9u8; 32]);
    assert_eq!(t.amount, 77);
}

#[test]
fn token_rejects_a_foreign_owner() {
    let data = token_account_bytes([4; 32], [9; 32], 77, AccountState::Initialized);
    let acc = AccountView::new(id(5), id(8), false, data);
    assert!(matches!(access_control::token(&acc), Err(FundErrorCode::InvalidAccountOwner)));
}

#[test]
fn token_rejects_garbage_bytes() {
    let acc = AccountView::new(id(5), spl_id(), false, vec![1u8; 10]);
    assert!(matches!(access_control::token(&acc), Err(FundErrorCode::WrongSerialization)));
}

#[test]
fn token_rejects_an_uninitialized_or_frozen_account() {
    let data = token_account_bytes([4; 32], [9; 32], 0, AccountState::Uninitialized);
    let acc = AccountView::new(id(5), spl_id(), false, data);
    assert!(matches!(access_control::token(&acc), Err(FundErrorCode::NotInitialized)));
    let data = token_account_bytes([4; 32], [9; 32], 0, AccountState::Frozen);
    let acc = AccountView::new(id(5), spl_id(), false, data);
    assert!(matches!(access_control::token(&acc), Err(FundErrorCode::NotInitialized)));
}

#[test]
fn mint_gate_checks_owner_parse_and_initialization() {
    let good = AccountView::new(id(4), spl_id(), false, mint_bytes(Some([2; 32]), 10, true));
    let m = access_control::mint(&good).unwrap();
    assert_eq!(m.supply, 10);
    assert_eq!(m.mint_authority.unwrap().bytes, [2u8; 32]);

    let foreign = AccountView::new(id(4), id(9), false, mint_bytes(None, 10, true));
    assert!(matches!(access_control::mint(&foreign), Err(FundErrorCode::InvalidMint)));

    let garbage = AccountView::new(id(4), spl_id(), false, vec![3u8; 5]);
    assert!(matches!(access_control::mint(&garbage), Err(FundErrorCode::InvalidMint)));

    let dormant = AccountView::new(id(4), spl_id(), false, mint_bytes(None, 0, false));
    assert!(matches!(access_control::mint(&dormant), Err(FundErrorCode::UnitializedTokenMint)));
}

#[test]
fn fund_gate_loads_only_owned_initialized_records() {
    let program = id(200);
    let f = sample_fund(id(5));
    let acc = AccountView::new(id(10), program, false, f.pack());
    let g = access_control::fund(&acc, &program).unwrap();
    assert_eq!(g.balance, 100);

    let foreign = AccountView::new(id(10), id(99), false, f.pack());
    assert!(matches!(
        access_control::fund(&foreign, &program),
        Err(FundErrorCode::InvalidAccountOwner)
    ));

    let garbage = AccountView::new(id(10), program, false, vec![0u8; 7]);
    assert!(matches!(
        access_control::fund(&garbage, &program),
        Err(FundErrorCode::WrongSerialization)
    ));

    let mut fresh = f;
    fresh.initialized = false;
    let uninit = AccountView::new(id(10), program, false, fresh.pack());
    assert!(matches!(
        access_control::fund(&uninit, &program),
        Err(FundErrorCode::NotInitialized)
    ));
}

#[test]
fn vault_gate_binds_the_recorded_vault_address() {
    let vault_key = id(5);
    let f = sample_fund(vault_key);
    let data = token_account_bytes([4; 32], [9; 32], 0, AccountState::Initialized);
    let good = AccountView::new(vault_key, spl_id(), false, data.clone());
    assert!(access_control::vault(&good, &f).is_ok());
    let wrong = AccountView::new(id(6), spl_id(), false, data);
    assert!(matches!(access_control::vault(&wrong, &f), Err(FundErrorCode::InvalidVault)));
}

#[test]
fn vault_authority_accepts_only_the_derived_address() {
    let program = [200u8; 32];
    let (fund_key, custody) = fund_key_with_custody(program, 0);
    let f = sample_fund(id(5));
    let fund_addr = Identity::new(fund_key);
    let program_id = Identity::new(program);

    let good = AccountView::new(Identity::new(custody), id(0), false, Vec::new());
    let va = access_control::vault_authority(&good, &fund_addr, &f, &program_id).unwrap();
    assert_eq!(va.bytes, custody);

    let wrong = AccountView::new(id(77), id(0), false, Vec::new());
    assert!(matches!(
        access_control::vault_authority(&wrong, &fund_addr, &f, &program_id),
        Err(FundErrorCode::InvalidVault)
    ));
}

#[test]
fn vault_authority_reports_a_failing_derivation() {
    let program = [200u8; 32];
    let fund_key = fund_key_without_custody(program, 0);
    let f = sample_fund(id(5));
    let acc = AccountView::new(id(77), id(0), false, Vec::new());
    assert!(matches!(
        access_control::vault_authority(&acc, &Identity::new(fund_key), &f, &Identity::new(program)),
        Err(FundErrorCode::InvalidVaultNonce)
    ));
}

#[test]
fn vault_join_requires_custody_ownership_of_the_vault() {
    let program = [200u8; 32];
    let (fund_key, custody) = fund_key_with_custody(program, 0);
    let program_id = Identity::new(program);
    let fund_addr = Identity::new(fund_key);
    let vault_key = id(5);
    let f = sample_fund(vault_key);

    let vault_data = token_account_bytes([4; 32], custody, 0, AccountState::Initialized);
    let vault_acc = AccountView::new(vault_key, spl_id(), false, vault_data);
    let authority_acc = AccountView::new(Identity::new(custody), id(0), false, Vec::new());
    assert!(access_control::vault_join(&vault_acc, &authority_acc, &f, &fund_addr, &program_id)
        .is_ok());

    let stray_data = token_account_bytes([4; 32], [9; 32], 0, AccountState::Initialized);
    let stray_vault = AccountView::new(vault_key, spl_id(), false, stray_data);
    assert!(matches!(
        access_control::vault_join(&stray_vault, &authority_acc, &f, &fund_addr, &program_id),
        Err(FundErrorCode::InvalidVault)
    ));
}

#[test]
fn withdraw_gate_requires_the_owner() {
    let program = id(200);
    let f = sample_fund(id(5));
    let fund_acc = AccountView::new(id(10), program, false, f.pack());
    let owner_acc = AccountView::new(id(1), id(0), true, Vec::new());
    assert!(access_control::withdraw(&program, &f, &fund_acc, &owner_acc).is_ok());

    let stranger = AccountView::new(id(2), id(0), true, Vec::new());
    assert!(matches!(
        access_control::withdraw(&program, &f, &fund_acc, &stranger),
        Err(FundErrorCode::Unauthorized)
    ));

    let stray_record = AccountView::new(id(10), id(9), false, f.pack());
    assert!(matches!(
        access_control::withdraw(&program, &f, &stray_record, &owner_acc),
        Err(FundErrorCode::InvalidAccount)
    ));
}

#[test]
fn check_balance_guards_the_capacity_exactly() {
    let f = sample_fund(id(5));
    assert!(access_control::check_balance(&f, 900).is_ok());
    assert!(matches!(
        access_control::check_balance(&f, 901),
        Err(FundErrorCode::FundBalanceOverflow)
    ));
    assert!(matches!(
        access_control::check_balance(&f, u64::MAX),
        Err(FundErrorCode::FundBalanceOverflow)
    ));
}

#[test]
fn owner_and_lifecycle_gates() {
    let f = sample_fund(id(5));
    let signer = AccountView::new(id(1), id(0), true, Vec::new());
    let unsigned = AccountView::new(id(1), id(0), false, Vec::new());
    assert!(access_control::check_owner(&f, &signer).is_ok());
    assert!(matches!(
        access_control::check_owner(&f, &unsigned),
        Err(FundErrorCode::Unauthorized)
    ));
    assert!(access_control::fund_open(&f).is_ok());
    assert!(matches!(access_control::fund_closed(&f), Err(FundErrorCode::FundOpen)));
    let mut closed = f;
    closed.open = false;
    assert!(matches!(access_control::fund_open(&closed), Err(FundErrorCode::FundClosed)));
    assert!(access_control::fund_closed(&closed).is_ok());
}

#[test]
fn nft_check_binds_mint_and_account() {
    let mut f = sample_fund(id(5));
    f.fund_type = FundType::Raise { private: false };
    f.nft_mint = id(7);
    f.nft_account = id(6);
    let nft_mint_acc = AccountView::new(id(7), spl_id(), false, mint_bytes(Some([2; 32]), 0, true));
    let good_token = AccountView::new(
        id(6),
        spl_id(),
        false,
        token_account_bytes([7; 32], [30; 32], 0, AccountState::Initialized),
    );
    assert!(access_control::check_nft(&f, &nft_mint_acc, &good_token).is_ok());

    let wrong_mint_acc = AccountView::new(id(8), spl_id(), false, mint_bytes(None, 0, true));
    assert!(matches!(
        access_control::check_nft(&f, &wrong_mint_acc, &good_token),
        Err(FundErrorCode::InvalidMint)
    ));

    let foreign_token = AccountView::new(
        id(6),
        spl_id(),
        false,
        token_account_bytes([9; 32], [30; 32], 0, AccountState::Initialized),
    );
    assert!(matches!(
        access_control::check_nft(&f, &nft_mint_acc, &foreign_token),
        Err(FundErrorCode::InvalidTokenAccountMint)
    ));
}

#[test]
fn depositor_check_requires_binding_and_membership() {
    let mut f = sample_fund(id(5));
    f.fund_type = FundType::Raise { private: true };
    f.whitelist = id(8);
    let mut store = vec![0u8; 1600];
    store[..32].copy_from_slice(&[33u8; 32]);
    let wl_acc = AccountView::new(id(8), id(0), false, store.clone());
    assert!(access_control::check_depositor(&wl_acc, &f, &id(33)).is_ok());
    assert!(matches!(
        access_control::check_depositor(&wl_acc, &f, &id(34)),
        Err(FundErrorCode::WhitelistNotFound)
    ));
    let unbound = AccountView::new(id(9), id(0), false, store);
    assert!(matches!(
        access_control::check_depositor(&unbound, &f, &id(33)),
        Err(FundErrorCode::WhitelistInvalidData)
    ));
}

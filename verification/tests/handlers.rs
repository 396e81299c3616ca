#![allow(deprecated)]

use solana_pubkey::Pubkey;
use spl_token::solana_program::program_option::COption;
use spl_token::solana_program::program_pack::Pack;
use spl_token::state::{Account as SplAccount, AccountState, Mint as SplMint};
use squifi::account::AccountView;
use squifi::effects::TokenDirective;
use squifi::error::FundErrorCode;
use squifi::fund::{Fund, FundType};
use squifi::identity::Identity;
use squifi::{close, deposit, payback_withdraw, register_payback};
use squifi::{whitelist_add, whitelist_delete, withdraw};

fn id(b: u8) -> Identity {
    Identity::new([b; 32])
}

fn spl_id() -> Identity {
    Identity::new(spl_token::ID.to_bytes())
}

fn token_account_bytes(mint: [u8; 32], owner: [u8; 32], amount: u64, state: AccountState) -> Vec<u8> {
    let acc = SplAccount {
        mint: Pubkey::new_from_array(mint),
        owner: Pubkey::new_from_array(owner),
        amount,
        delegate: COption::None,
        state,
        is_native: COption::None,
        delegated_amount: 0,
        close_authority: COption::None,
    };
    let mut buf = vec![0u8; SplAccount::LEN];
    SplAccount::pack(acc, &mut buf).unwrap();
    buf
}

fn mint_bytes(authority: Option<[u8; 32]>, initialized: bool) -> Vec<u8> {
    let m = SplMint {
        mint_authority: match authority {
            Some(a) => COption::Some(Pubkey::new_from_array(a)),
            None => COption::None,
        },
        supply: 0,
        decimals: 6,
        is_initialized: initialized,
        freeze_authority: COption::None,
    };
    let mut buf = vec![0u8; SplMint::LEN];
    SplMint::pack(m, &mut buf).unwrap();
    buf
}

fn fund_key_with_custody(program: [u8; 32], nonce: u8) -> ([u8; 32], [u8; 32]) {
    let program_pk = Pubkey::new_from_array(program);
    let mut b: u8 = 0;
    loop {
        let key = [b; 32];
        if let Ok(va) = Pubkey::create_program_address(&[&key, &[nonce]], &program_pk) {
            return (key, va.to_bytes());
        }
        b = b.wrapping_add(1);
        assert!(b != 0, "no fund key with a valid custody derivation found");
    }
}

/// A fund, its record account, and the vault and custody accounts that
/// pass the vault-binding checks.
struct Setup {
    program: Identity,
    fund: Fund,
    fund_acc: AccountView,
    vault_acc: AccountView,
    authority_acc: AccountView,
}

fn setup(fund_type: FundType, max_balance: u64) -> Setup {
    let program_bytes = [200u8; 32];
    let program = Identity::new(program_bytes);
    let (fund_key, custody) = fund_key_with_custody(program_bytes, 0);
    let vault_key = id(5);
    let fund = Fund {
        initialized: true,
        open: true,
        fund_type,
        owner: id(1),
        authority: id(1),
        max_balance,
        balance: 0,
        nonce: 0,
        mint: id(4),
        vault: vault_key,
        shares: 0,
        nft_account: id(6),
        nft_mint: id(7),
        whitelist: id(8),
        payback_vault: id(9),
        payback_total: 0,
        payback_per_share: 0,
    };
    let fund_acc = AccountView::new(Identity::new(fund_key), program, false, fund.pack());
    let vault_data = token_account_bytes([4; 32], custody, 0, AccountState::Initialized);
    let vault_acc = AccountView::new(vault_key, spl_id(), false, vault_data);
    let authority_acc = AccountView::new(Identity::new(custody), id(0), false, Vec::new());
    Setup { program, fund, fund_acc, vault_acc, authority_acc }
}

fn depositor_accounts() -> (AccountView, AccountView) {
    let depositor_acc = AccountView::new(
        id(20),
        spl_id(),
        false,
        token_account_bytes([4; 32], [21; 32], 500, AccountState::Initialized),
    );
    let depositor_authority = AccountView::new(id(21), id(0), true, Vec::new());
    (depositor_acc, depositor_authority)
}

fn deposit_fundme(s: &Setup, fund: &Fund, amount: u64) -> Result<squifi::effects::FundEffect, FundErrorCode> {
    let (depositor_acc, depositor_authority) = depositor_accounts();
    deposit::handler(
        &s.program,
        amount,
        fund,
        &s.fund_acc,
        &s.vault_acc,
        &depositor_acc,
        &depositor_authority,
        &s.authority_acc,
        None,
        None,
        None,
    )
}

#[test]
fn fundme_deposit_then_overflowing_deposit() {
    let s = setup(FundType::FundMe, 100);
    let eff = deposit_fundme(&s, &s.fund, 50).expect("a deposit within capacity succeeds");
    assert_eq!(eff.fund.balance, 50);
    assert_eq!(eff.fund.shares, 0);
    assert_eq!(eff.directives.len(), 1);
    match &eff.directives[0] {
        TokenDirective::Transfer { source, destination, authority, amount, custody } => {
            assert_eq!(source.bytes, [20u8; 32]);
            assert_eq!(destination.bytes, [5u8; 32]);
            assert_eq!(authority.bytes, [21u8; 32]);
            assert_eq!(*amount, 50);
            assert!(custody.is_none());
        },
        _ => panic!("a plain deposit emits a transfer"),
    }

    let after = eff.fund;
    let r = deposit_fundme(&s, &after, 60);
    assert!(matches!(r, Err(FundErrorCode::FundBalanceOverflow)));
    assert_eq!(after.balance, 50);
}

#[test]
fn public_raise_deposit_mints_a_receipt() {
    let s = setup(FundType::Raise { private: false }, 1000);
    let (depositor_acc, depositor_authority) = depositor_accounts();
    let nft_mint_acc = AccountView::new(id(7), spl_id(), false, mint_bytes(Some([2; 32]), true));
    let nft_token_acc = AccountView::new(
        id(6),
        spl_id(),
        false,
        token_account_bytes([7; 32], [21; 32], 0, AccountState::Initialized),
    );
    let eff = deposit::handler(
        &s.program,
        30,
        &s.fund,
        &s.fund_acc,
        &s.vault_acc,
        &depositor_acc,
        &depositor_authority,
        &s.authority_acc,
        Some(&nft_mint_acc),
        Some(&nft_token_acc),
        None,
    )
    .expect("a public raise deposit succeeds without a whitelist");
    assert_eq!(eff.fund.balance, 30);
    assert_eq!(eff.fund.shares, 30);
    assert_eq!(eff.directives.len(), 2);
    match &eff.directives[0] {
        TokenDirective::MintTo { mint, destination, amount, custody, .. } => {
            assert_eq!(mint.bytes, [7u8; 32]);
            assert_eq!(destination.bytes, [6u8; 32]);
            assert_eq!(*amount, 30);
            let seeds = custody.expect("the receipt mint is custody-signed");
            assert_eq!(seeds.fund.bytes, s.fund_acc.key.bytes);
            assert_eq!(seeds.nonce, 0);
        },
        _ => panic!("a raise deposit first mints the receipt"),
    }
    assert!(matches!(&eff.directives[1], TokenDirective::Transfer { .. }));
}

#[test]
fn deposit_gate_failures() {
    let s = setup(FundType::FundMe, 100);
    let (depositor_acc, _) = depositor_accounts();
    let unsigned = AccountView::new(id(21), id(0), false, Vec::new());
    let r = deposit::handler(
        &s.program,
        10,
        &s.fund,
        &s.fund_acc,
        &s.vault_acc,
        &depositor_acc,
        &unsigned,
        &s.authority_acc,
        None,
        None,
        None,
    );
    assert!(matches!(r, Err(FundErrorCode::Unauthorized)));

    let mut closed = s.fund;
    closed.open = false;
    let r = deposit_fundme(&s, &closed, 10);
    assert!(matches!(r, Err(FundErrorCode::FundClosed)));

    let stray_authority = AccountView::new(id(66), id(0), false, Vec::new());
    let (depositor_acc, depositor_authority) = depositor_accounts();
    let r = deposit::handler(
        &s.program,
        10,
        &s.fund,
        &s.fund_acc,
        &s.vault_acc,
        &depositor_acc,
        &depositor_authority,
        &stray_authority,
        None,
        None,
        None,
    );
    assert!(matches!(r, Err(FundErrorCode::InvalidVault)));
}

#[test]
fn raise_deposit_requires_nft_accounts_and_membership() {
    let s = setup(FundType::Raise { private: true }, 1000);
    let (depositor_acc, depositor_authority) = depositor_accounts();
    let r = deposit::handler(
        &s.program,
        10,
        &s.fund,
        &s.fund_acc,
        &s.vault_acc,
        &depositor_acc,
        &depositor_authority,
        &s.authority_acc,
        None,
        None,
        None,
    );
    assert!(matches!(r, Err(FundErrorCode::NFTMintMissing)));

    let nft_mint_acc = AccountView::new(id(7), spl_id(), false, mint_bytes(Some([2; 32]), true));
    let r = deposit::handler(
        &s.program,
        10,
        &s.fund,
        &s.fund_acc,
        &s.vault_acc,
        &depositor_acc,
        &depositor_authority,
        &s.authority_acc,
        Some(&nft_mint_acc),
        None,
        None,
    );
    assert!(matches!(r, Err(FundErrorCode::NFTTokenAccountMissing)));

    let nft_token_acc = AccountView::new(
        id(6),
        spl_id(),
        false,
        token_account_bytes([7; 32], [21; 32], 0, AccountState::Initialized),
    );
    let empty_store = AccountView::new(id(8), id(0), false, vec![0u8; 1600]);
    let r = deposit::handler(
        &s.program,
        10,
        &s.fund,
        &s.fund_acc,
        &s.vault_acc,
        &depositor_acc,
        &depositor_authority,
        &s.authority_acc,
        Some(&nft_mint_acc),
        Some(&nft_token_acc),
        Some(&empty_store),
    );
    assert!(matches!(r, Err(FundErrorCode::WhitelistNotFound)));

    let mut listed = vec![0u8; 1600];
    listed[..32].copy_from_slice(&[21u8; 32]);
    let store = AccountView::new(id(8), id(0), false, listed);
    let eff = deposit::handler(
        &s.program,
        10,
        &s.fund,
        &s.fund_acc,
        &s.vault_acc,
        &depositor_acc,
        &depositor_authority,
        &s.authority_acc,
        Some(&nft_mint_acc),
        Some(&nft_token_acc),
        Some(&store),
    )
    .expect("a listed depositor may pay into a private raise");
    assert_eq!(eff.fund.shares, 10);
}

#[test]
fn close_then_withdraw_moves_the_balance() {
    let s = setup(FundType::FundMe, 1000);
    let mut fund = s.fund;
    fund.balance = 80;
    let owner_acc = AccountView::new(id(1), id(0), true, Vec::new());
    let closed = close::handler(&fund, &owner_acc).expect("the owner closes the fund");
    assert!(!closed.open);

    let fund_acc = AccountView::new(s.fund_acc.key, s.program, false, closed.pack());
    let eff = withdraw::handler(
        &s.program,
        50,
        &closed,
        &fund_acc,
        &owner_acc,
        &s.vault_acc,
        &s.authority_acc,
    )
    .expect("the owner withdraws from a closed fund");
    assert_eq!(eff.fund.balance, 30);
    match &eff.directives[0] {
        TokenDirective::Transfer { source, destination, amount, custody, .. } => {
            assert_eq!(source.bytes, [5u8; 32]);
            assert_eq!(destination.bytes, [1u8; 32]);
            assert_eq!(*amount, 50);
            assert!(custody.is_some());
        },
        _ => panic!("a withdrawal emits a transfer"),
    }
}

#[test]
fn withdraw_from_an_open_fund_fails() {
    let s = setup(FundType::FundMe, 1000);
    let mut fund = s.fund;
    fund.balance = 80;
    let owner_acc = AccountView::new(id(1), id(0), true, Vec::new());
    let r = withdraw::handler(
        &s.program,
        50,
        &fund,
        &s.fund_acc,
        &owner_acc,
        &s.vault_acc,
        &s.authority_acc,
    );
    assert!(matches!(r, Err(FundErrorCode::FundOpen)));
    assert_eq!(fund.balance, 80);

    let mut closed = fund;
    closed.open = false;
    let r = withdraw::handler(
        &s.program,
        100,
        &closed,
        &s.fund_acc,
        &owner_acc,
        &s.vault_acc,
        &s.authority_acc,
    );
    assert!(matches!(r, Err(FundErrorCode::FundBalanceOverflow)));

    let stranger = AccountView::new(id(3), id(0), true, Vec::new());
    let r = withdraw::handler(
        &s.program,
        50,
        &closed,
        &s.fund_acc,
        &stranger,
        &s.vault_acc,
        &s.authority_acc,
    );
    assert!(matches!(r, Err(FundErrorCode::Unauthorized)));
}

#[test]
fn close_is_idempotent_for_the_owner() {
    let s = setup(FundType::FundMe, 1000);
    let owner_acc = AccountView::new(id(1), id(0), true, Vec::new());
    let once = close::handler(&s.fund, &owner_acc).unwrap();
    assert!(!once.open);
    let twice = close::handler(&once, &owner_acc).expect("closing twice is no error");
    assert!(!twice.open);
    assert_eq!(twice.balance, once.balance);

    let stranger = AccountView::new(id(2), id(0), true, Vec::new());
    assert!(matches!(close::handler(&s.fund, &stranger), Err(FundErrorCode::Unauthorized)));
}

#[test]
fn register_payback_accumulates_total_and_rate() {
    let s = setup(FundType::Raise { private: false }, 1000);
    let mut fund = s.fund;
    fund.balance = 100;
    fund.shares = 100;
    let owner_acc = AccountView::new(id(1), id(0), true, Vec::new());
    let f2 = register_payback::handler(&s.program, 1000, &fund, &s.fund_acc, &owner_acc)
        .expect("the owner registers a payback");
    assert_eq!(f2.payback_total, 1000);
    assert_eq!(f2.payback_per_share, 10);

    let r = register_payback::handler(&s.program, 7, &s.fund, &s.fund_acc, &owner_acc);
    assert!(matches!(r, Err(FundErrorCode::InvalidFund)));

    let stranger = AccountView::new(id(2), id(0), true, Vec::new());
    let r = register_payback::handler(&s.program, 7, &fund, &s.fund_acc, &stranger);
    assert!(matches!(r, Err(FundErrorCode::Unauthorized)));
}

#[test]
fn whitelist_add_twice_then_delete_and_readd() {
    let s = setup(FundType::Raise { private: true }, 1000);
    let owner_acc = AccountView::new(id(1), id(0), true, Vec::new());
    let store_acc = AccountView::new(id(8), id(0), false, vec![0u8; 1600]);
    let entry = id(33);

    let w = whitelist_add::handler(&s.program, &s.fund, &s.fund_acc, &owner_acc, &store_acc, entry)
        .expect("a new identity is added");
    assert!(w.contains(&entry));

    let store_acc2 = AccountView::new(id(8), id(0), false, w.to_bytes());
    let r = whitelist_add::handler(&s.program, &s.fund, &s.fund_acc, &owner_acc, &store_acc2, entry);
    assert!(matches!(r, Err(FundErrorCode::PubKeyAlreadyExists)));

    let w2 = whitelist_delete::handler(
        &s.program,
        &s.fund,
        &s.fund_acc,
        &owner_acc,
        &store_acc2,
        entry,
    )
    .expect("a listed identity is deleted");
    assert!(!w2.contains(&entry));

    let store_acc3 = AccountView::new(id(8), id(0), false, w2.to_bytes());
    let w3 = whitelist_add::handler(&s.program, &s.fund, &s.fund_acc, &owner_acc, &store_acc3, entry)
        .expect("a deleted identity may be re-added");
    assert!(w3.contains(&entry));
}

#[test]
fn whitelist_handlers_report_gate_failures() {
    let s = setup(FundType::Raise { private: true }, 1000);
    let owner_acc = AccountView::new(id(1), id(0), true, Vec::new());
    let unbound = AccountView::new(id(9), id(0), false, vec![0u8; 1600]);
    let r = whitelist_add::handler(&s.program, &s.fund, &s.fund_acc, &owner_acc, &unbound, id(33));
    assert!(matches!(r, Err(FundErrorCode::WhitelistInvalidData)));

    let store_acc = AccountView::new(id(8), id(0), false, vec![0u8; 1600]);
    let r = whitelist_delete::handler(
        &s.program,
        &s.fund,
        &s.fund_acc,
        &owner_acc,
        &store_acc,
        id(33),
    );
    assert!(matches!(r, Err(FundErrorCode::WhitelistNotFound)));

    let mut full = Vec::with_capacity(1600);
    for slot in 0u8..50 {
        full.extend_from_slice(&[slot + 100; 32]);
    }
    let full_acc = AccountView::new(id(8), id(0), false, full);
    let r = whitelist_add::handler(&s.program, &s.fund, &s.fund_acc, &owner_acc, &full_acc, id(33));
    assert!(matches!(r, Err(FundErrorCode::WhitelistFull)));
}

#[test]
fn payback_withdraw_transfers_under_custody() {
    let s = setup(FundType::Raise { private: false }, 1000);
    let mut fund = s.fund;
    fund.shares = 100;
    let claimant = AccountView::new(id(40), id(0), true, Vec::new());
    let nft_token_acc = AccountView::new(
        id(6),
        spl_id(),
        false,
        token_account_bytes([7; 32], [40; 32], 1, AccountState::Initialized),
    );
    let destination = AccountView::new(
        id(41),
        spl_id(),
        false,
        token_account_bytes([4; 32], [40; 32], 0, AccountState::Initialized),
    );
    let payback_vault_acc = AccountView::new(id(9), spl_id(), false, Vec::new());
    let payback_authority_acc = AccountView::new(id(10), id(0), false, Vec::new());
    let d = payback_withdraw::handler(
        &s.program,
        60,
        &fund,
        &s.fund_acc,
        &claimant,
        &nft_token_acc,
        &destination,
        &payback_vault_acc,
        &payback_authority_acc,
    )
    .expect("a receipt holder claims from the payback pool");
    match d {
        TokenDirective::Transfer { source, destination, amount, custody, .. } => {
            assert_eq!(source.bytes, [9u8; 32]);
            assert_eq!(destination.bytes, [40u8; 32]);
            assert_eq!(amount, 60);
            assert!(custody.is_some());
        },
        _ => panic!("a payback claim emits a transfer"),
    }

    let r = payback_withdraw::handler(
        &s.program,
        200,
        &fund,
        &s.fund_acc,
        &claimant,
        &nft_token_acc,
        &destination,
        &payback_vault_acc,
        &payback_authority_acc,
    );
    assert!(matches!(r, Err(FundErrorCode::WithdrawlSizeOverflow)));

    let rich_destination = AccountView::new(
        id(41),
        spl_id(),
        false,
        token_account_bytes([4; 32], [40; 32], 60, AccountState::Initialized),
    );
    let r = payback_withdraw::handler(
        &s.program,
        60,
        &fund,
        &s.fund_acc,
        &claimant,
        &nft_token_acc,
        &rich_destination,
        &payback_vault_acc,
        &payback_authority_acc,
    );
    assert!(matches!(r, Err(FundErrorCode::InvalidPayBackWithdrawlAddress)));

    let foreign_nft = AccountView::new(
        id(6),
        spl_id(),
        false,
        token_account_bytes([9; 32], [40; 32], 1, AccountState::Initialized),
    );
    let r = payback_withdraw::handler(
        &s.program,
        60,
        &fund,
        &s.fund_acc,
        &claimant,
        &foreign_nft,
        &destination,
        &payback_vault_acc,
        &payback_authority_acc,
    );
    assert!(matches!(r, Err(FundErrorCode::InvalidTokenAccountMint)));

    let mut fundme = fund;
    fundme.fund_type = FundType::FundMe;
    fundme.shares = 0;
    let r = payback_withdraw::handler(
        &s.program,
        60,
        &fundme,
        &s.fund_acc,
        &claimant,
        &nft_token_acc,
        &destination,
        &payback_vault_acc,
        &payback_authority_acc,
    );
    assert!(matches!(r, Err(FundErrorCode::InvalidFund)));
}

use squifi::error::FundErrorCode;
use squifi::fund::{Fund, FundType};
use squifi::identity::Identity;

fn id(b: u8) -> Identity {
    Identity::new([b; 32])
}

fn sample_fund() -> Fund {
    Fund {
        initialized: true,
        open: true,
        fund_type: FundType::Raise { private: true },
        owner: id(1),
        authority: id(2),
        max_balance: 1000,
        balance: 250,
        nonce: 3,
        mint: id(4),
        vault: id(5),
        shares: 250,
        nft_account: id(6),
        nft_mint: id(7),
        whitelist: id(8),
        payback_vault: id(9),
        payback_total: 40,
        payback_per_share: 10,
    }
}

#[test]
fn pack_then_unpack_returns_the_record() {
    let f = sample_fund();
    let bytes = f.pack();
    assert_eq!(bytes.len(), 301);
    let g = Fund::unpack(bytes.as_slice()).expect("own encoding must parse");
    assert_eq!(g.initialized, f.initialized);
    assert_eq!(g.open, f.open);
    assert_eq!(g.fund_type, f.fund_type);
    assert_eq!(g.owner.bytes, f.owner.bytes);
    assert_eq!(g.authority.bytes, f.authority.bytes);
    assert_eq!(g.max_balance, f.max_balance);
    assert_eq!(g.balance, f.balance);
    assert_eq!(g.nonce, f.nonce);
    assert_eq!(g.mint.bytes, f.mint.bytes);
    assert_eq!(g.vault.bytes, f.vault.bytes);
    assert_eq!(g.shares, f.shares);
    assert_eq!(g.nft_account.bytes, f.nft_account.bytes);
    assert_eq!(g.nft_mint.bytes, f.nft_mint.bytes);
    assert_eq!(g.whitelist.bytes, f.whitelist.bytes);
    assert_eq!(g.payback_vault.bytes, f.payback_vault.bytes);
    assert_eq!(g.payback_total, f.payback_total);
    assert_eq!(g.payback_per_share, f.payback_per_share);
}

#[test]
fn pack_layout_is_fixed() {
    let f = sample_fund();
    let bytes = f.pack();
    assert_eq!(bytes[0], 1);
    assert_eq!(bytes[1], 1);
    assert_eq!(bytes[2], 1);
    assert_eq!(bytes[3], 1);
    assert_eq!(&bytes[4..36], &[1u8; 32]);
    assert_eq!(&bytes[36..68], &[2u8; 32]);
    assert_eq!(&bytes[68..76], &1000u64.to_le_bytes());
    assert_eq!(&bytes[76..84], &250u64.to_le_bytes());
    assert_eq!(bytes[84], 3);
    assert_eq!(&bytes[285..293], &40u64.to_le_bytes());
    assert_eq!(&bytes[293..301], &10u64.to_le_bytes());
}

#[test]
fn unpack_rejects_wrong_length_and_bad_bytes() {
    assert!(Fund::unpack(&[0u8; 300]).is_none());
    assert!(Fund::unpack(&[0u8; 302]).is_none());
    let mut bytes = sample_fund().pack();
    bytes[0] = 2;
    assert!(Fund::unpack(bytes.as_slice()).is_none());
    let mut bytes = sample_fund().pack();
    bytes[2] = 9;
    assert!(Fund::unpack(bytes.as_slice()).is_none());
    let mut bytes = sample_fund().pack();
    bytes[3] = 7;
    assert!(Fund::unpack(bytes.as_slice()).is_none());
}

#[test]
fn zeroed_record_parses_as_uninitialized_fundme() {
    let f = Fund::unpack(&[0u8; 301]).expect("a fresh zeroed record parses");
    assert!(!f.initialized);
    assert!(!f.open);
    assert_eq!(f.fund_type, FundType::FundMe);
    assert_eq!(f.balance, 0);
    assert_eq!(f.shares, 0);
}

#[test]
fn add_increments_balance_and_raise_shares() {
    let mut f = sample_fund();
    f.add(100);
    assert_eq!(f.balance, 350);
    assert_eq!(f.shares, 350);
    let mut g = sample_fund();
    g.fund_type = FundType::FundMe;
    g.shares = 0;
    g.add(100);
    assert_eq!(g.balance, 350);
    assert_eq!(g.shares, 0);
}

#[test]
fn deduct_decrements_balance_only() {
    let mut f = sample_fund();
    f.deduct(50);
    assert_eq!(f.balance, 200);
    assert_eq!(f.shares, 250);
}

#[test]
fn close_fund_clears_open_and_is_idempotent() {
    let mut f = sample_fund();
    f.close_fund();
    assert!(!f.open);
    f.close_fund();
    assert!(!f.open);
    assert_eq!(f.balance, 250);
}

#[test]
fn payback_accumulators_add_up() {
    let mut f = sample_fund();
    f.add_payback_bal(60);
    assert_eq!(f.payback_total, 100);
    f.add_payback_per_share(5);
    assert_eq!(f.payback_per_share, 15);
}

#[test]
fn share_dist_is_unit() {
    assert_eq!(Fund::get_share_dist(), 1);
}

#[test]
fn fund_type_default_is_fundme() {
    assert_eq!(FundType::default(), FundType::FundMe);
}

#[test]
fn error_codes_keep_their_numbers() {
    assert_eq!(FundErrorCode::AlreadyInUse.code(), 0);
    assert_eq!(FundErrorCode::WrongSerialization.code(), 1);
    assert_eq!(FundErrorCode::NotOwnedByProgram.code(), 2);
    assert_eq!(FundErrorCode::NotInitialized.code(), 3);
    assert_eq!(FundErrorCode::InvalidVaultNonce.code(), 4);
    assert_eq!(FundErrorCode::InvalidVault.code(), 5);
    assert_eq!(FundErrorCode::InvalidAccountOwner.code(), 6);
    assert_eq!(FundErrorCode::AlreadyInitialized.code(), 7);
    assert_eq!(FundErrorCode::InvalidMint.code(), 8);
    assert_eq!(FundErrorCode::UnitializedTokenMint.code(), 9);
    assert_eq!(FundErrorCode::Unauthorized.code(), 10);
    assert_eq!(FundErrorCode::FundBalanceOverflow.code(), 13);
    assert_eq!(FundErrorCode::FundClosed.code(), 14);
    assert_eq!(FundErrorCode::FundOpen.code(), 15);
    assert_eq!(FundErrorCode::WhitelistInvalidData.code(), 16);
    assert_eq!(FundErrorCode::PubKeyAlreadyExists.code(), 17);
}

#[test]
fn is_wf_checks_the_invariant() {
    let f = sample_fund();
    assert!(f.is_wf());
    let mut g = sample_fund();
    g.balance = 2000;
    assert!(!g.is_wf());
    let mut h = sample_fund();
    h.shares = 100;
    assert!(!h.is_wf());
    let mut k = sample_fund();
    k.fund_type = FundType::FundMe;
    assert!(!k.is_wf());
}

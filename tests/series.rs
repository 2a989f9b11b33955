use zeta_otc::accounts::{
    InitializeOptionArgs, InitializeStateArgs, InitializeUnderlyingArgs, Mint, OptionAccount, PriceFeed,
    PriceType, State, TokenAccount, Underlying,
};
use zeta_otc::context::{
    BurnOption, CloseOptionAccount, InitializeOption, InitializeState, InitializeUnderlying,
    SetSettlementPrice, SetSettlementPriceOverride,
};
use zeta_otc::error::ErrorCode;
use zeta_otc::key::Key;
use zeta_otc::ledger::{LedgerOp, Signer};
use zeta_otc::otc::{
    burn_option, close_option_account, initialize_option, initialize_state, initialize_underlying,
    set_settlement_price,
};

const ADMIN: u8 = 1;
const CREATOR: u8 = 2;
const STRANGER: u8 = 3;
const UNDERLYING_MINT: u8 = 10;
const ORACLE: u8 = 11;
const FUNDING: u8 = 12;
const VAULT: u8 = 13;
const VAULT_AUTHORITY: u8 = 14;
const MINT_AUTHORITY: u8 = 15;
const OPTION_MINT: u8 = 16;
const CLAIM_ACCOUNT: u8 = 17;
const OPTION_ACCOUNT: u8 = 18;
const EXPIRY: u64 = 1_000_000;
const WINDOW: u64 = 60;

fn key(n: u8) -> Key {
    Key::new([n; 32])
}

fn state() -> State {
    State {
        state_nonce: 250,
        mint_auth_nonce: 251,
        vault_auth_nonce: 252,
        admin: key(ADMIN),
        settlement_price_threshold_seconds: WINDOW,
    }
}

fn underlying() -> Underlying {
    Underlying { underlying_nonce: 249, mint: key(UNDERLYING_MINT), oracle: key(ORACLE), count: 7 }
}

/// An underlying asset with 5 decimals: a lot of 10 units per claim.
fn underlying_mint() -> Mint {
    Mint { key: key(UNDERLYING_MINT), decimals: 5, supply: 1_000_000 }
}

fn funding(amount: u64) -> TokenAccount {
    TokenAccount { key: key(FUNDING), mint: key(UNDERLYING_MINT), owner: key(CREATOR), amount }
}

fn create_ctx(balance: u64) -> InitializeOption {
    InitializeOption {
        state: state(),
        underlying: underlying(),
        vault: key(VAULT),
        vault_authority: key(VAULT_AUTHORITY),
        underlying_mint: underlying_mint(),
        underlying_token_account: funding(balance),
        creator: key(CREATOR),
        option_account: key(OPTION_ACCOUNT),
        mint_authority: key(MINT_AUTHORITY),
        option_mint: key(OPTION_MINT),
        user_option_token_account: key(CLAIM_ACCOUNT),
    }
}

fn args(collateral_amount: u64, strike: u64) -> InitializeOptionArgs {
    InitializeOptionArgs {
        collateral_amount,
        option_account_nonce: 1,
        option_mint_nonce: 2,
        token_account_nonce: 3,
        vault_nonce: 4,
        expiry: EXPIRY,
        strike,
    }
}

fn series(strike: u64) -> OptionAccount {
    let mut ctx = create_ctx(1_000);
    let (account, _) = initialize_option(&mut ctx, &args(50, strike), 0).unwrap();
    account
}

fn claims(amount: u64) -> TokenAccount {
    TokenAccount { key: key(CLAIM_ACCOUNT), mint: key(OPTION_MINT), owner: key(CREATOR), amount }
}

fn vault(amount: u64) -> TokenAccount {
    TokenAccount { key: key(VAULT), mint: key(UNDERLYING_MINT), owner: key(VAULT_AUTHORITY), amount }
}

fn burn_ctx(account: OptionAccount, claim_balance: u64, vault_balance: u64) -> BurnOption {
    BurnOption {
        state: state(),
        underlying: underlying(),
        vault: vault(vault_balance),
        underlying_mint: underlying_mint(),
        underlying_token_account: funding(0),
        holder: key(CREATOR),
        option_account: account,
        mint_authority: key(MINT_AUTHORITY),
        option_mint: key(OPTION_MINT),
        user_option_token_account: claims(claim_balance),
        vault_authority: key(VAULT_AUTHORITY),
    }
}

fn close_ctx(account: OptionAccount, caller: u8, claim_balance: u64, vault_balance: u64) -> CloseOptionAccount {
    CloseOptionAccount {
        state: state(),
        series: key(OPTION_ACCOUNT),
        underlying: underlying(),
        vault: vault(vault_balance),
        underlying_mint: underlying_mint(),
        underlying_token_account: TokenAccount {
            key: key(FUNDING),
            mint: key(UNDERLYING_MINT),
            owner: key(caller),
            amount: 0,
        },
        creator: key(caller),
        option_account: account,
        mint_authority: key(MINT_AUTHORITY),
        option_mint: key(OPTION_MINT),
        user_option_token_account: claims(claim_balance),
        vault_authority: key(VAULT_AUTHORITY),
    }
}

/// A reading of `price` units, normalised exactly by an exponent of -32.
fn reading(price: i64) -> PriceFeed {
    PriceFeed { key: key(ORACLE), ptype: PriceType::Price, price, expo: -32, conf: 1 }
}

fn settle_ctx(account: OptionAccount, price: i64, supply: u64, vault_balance: u64) -> SetSettlementPrice {
    SetSettlementPrice {
        state: state(),
        underlying: underlying(),
        underlying_mint: underlying_mint(),
        option_account: account,
        oracle: reading(price),
        option_mint: Mint { key: key(OPTION_MINT), decimals: 4, supply },
        vault: vault(vault_balance),
    }
}

fn transfer_amount(op: &LedgerOp) -> u64 {
    match op {
        LedgerOp::Transfer { amount, .. } => *amount,
        _ => panic!("not a transfer"),
    }
}

#[test]
fn state_is_created_with_signer_as_admin() {
    let ctx = InitializeState { admin: key(ADMIN), mint_authority: key(MINT_AUTHORITY), vault_authority: key(VAULT_AUTHORITY) };
    let a = InitializeStateArgs { state_nonce: 1, mint_auth_nonce: 2, vault_auth_nonce: 3, settlement_price_threshold_seconds: 90 };
    let s = initialize_state(&ctx, &a);
    assert!(s.admin.same_as(&key(ADMIN)));
    assert_eq!((s.state_nonce, s.mint_auth_nonce, s.vault_auth_nonce), (1, 2, 3));
    assert_eq!(s.settlement_price_threshold_seconds, 90);
}

#[test]
fn underlying_registration_is_admin_only() {
    let ctx = InitializeUnderlying { state: state(), mint: key(UNDERLYING_MINT), oracle: key(ORACLE), admin: key(ADMIN) };
    let u = initialize_underlying(&ctx, &InitializeUnderlyingArgs { underlying_nonce: 9 }).unwrap();
    assert_eq!(u.count, 0);
    assert_eq!(u.underlying_nonce, 9);
    assert!(u.oracle.same_as(&key(ORACLE)));
    let bad = InitializeUnderlying { admin: key(STRANGER), ..ctx };
    assert_eq!(initialize_underlying(&bad, &InitializeUnderlyingArgs { underlying_nonce: 9 }).unwrap_err(), ErrorCode::UnauthorizedAdmin);
}

#[test]
fn settlement_override_is_admin_only() {
    let ok = SetSettlementPriceOverride { state: state(), option_account: series(100), admin: key(ADMIN) };
    assert_eq!(ok.check_admin(), Ok(()));
    let bad = SetSettlementPriceOverride { admin: key(STRANGER), ..ok };
    assert_eq!(bad.check_admin(), Err(ErrorCode::OnlyAdminCanOverrideSettlementPrice));
}

#[test]
fn creation_mints_one_claim_per_lot_and_escrows_collateral() {
    let mut ctx = create_ctx(1_000);
    let (account, ops) = initialize_option(&mut ctx, &args(50, 100), 0).unwrap();
    assert_eq!(account.underlying_count, 7);
    assert_eq!(ctx.underlying.count, 8);
    assert_eq!(account.settlement_price, 0);
    assert_eq!((account.strike, account.expiry), (100, EXPIRY));
    assert!(account.creator.same_as(&key(CREATOR)));
    assert_eq!(ops.len(), 2);
    match ops[0] {
        LedgerOp::MintTo { accounts, amount, signer } => {
            assert_eq!(amount, 5);
            assert!(accounts.to.same_as(&key(CLAIM_ACCOUNT)));
            assert_eq!(signer, Signer::MintAuthority { nonce: 251 });
        }
        _ => panic!("expected a mint"),
    }
    match ops[1] {
        LedgerOp::Transfer { accounts, amount, signer } => {
            assert_eq!(amount, 50);
            assert!(accounts.from.same_as(&key(FUNDING)));
            assert!(accounts.to.same_as(&key(VAULT)));
            assert_eq!(signer, Signer::Caller);
        }
        _ => panic!("expected a transfer"),
    }
}

#[test]
fn series_indices_are_never_reused() {
    let mut ctx = create_ctx(1_000);
    let (first, _) = initialize_option(&mut ctx, &args(50, 100), 0).unwrap();
    let (second, _) = initialize_option(&mut ctx, &args(50, 100), 0).unwrap();
    assert_eq!((first.underlying_count, second.underlying_count), (7, 8));
    assert_eq!(ctx.underlying.count, 9);
}

#[test]
fn creation_rejects_bad_inputs_and_changes_nothing() {
    let cases: Vec<(InitializeOption, InitializeOptionArgs, i64, ErrorCode)> = vec![
        (InitializeOption { underlying_token_account: TokenAccount { mint: key(99), ..funding(1_000) }, ..create_ctx(1_000) }, args(50, 100), 0, ErrorCode::TokenAccountMintMismatch),
        (InitializeOption { underlying_token_account: TokenAccount { owner: key(STRANGER), ..funding(1_000) }, ..create_ctx(1_000) }, args(50, 100), 0, ErrorCode::InvalidTokenAccountOwner),
        (create_ctx(40), args(50, 100), 0, ErrorCode::InsufficientFunds),
        (create_ctx(1_000), args(50, 100), EXPIRY as i64, ErrorCode::OptionExpirationMustBeInTheFuture),
        (create_ctx(1_000), args(50, 0), 0, ErrorCode::InvalidStrike),
        (InitializeOption { underlying: Underlying { count: u64::MAX, ..underlying() }, ..create_ctx(1_000) }, args(50, 100), 0, ErrorCode::ArithmeticOverflow),
        (InitializeOption { underlying_mint: Mint { decimals: 3, ..underlying_mint() }, ..create_ctx(1_000) }, args(50, 100), 0, ErrorCode::UnsupportedMintDecimals),
        (InitializeOption { underlying_mint: Mint { decimals: 20, ..underlying_mint() }, ..create_ctx(1_000) }, args(50, 100), 0, ErrorCode::UnsupportedMintDecimals),
    ];
    for (ctx, a, now, expected) in cases {
        let mut c = ctx;
        assert_eq!(initialize_option(&mut c, &a, now).unwrap_err(), expected);
        assert_eq!(c.underlying.count, ctx.underlying.count);
    }
}

#[test]
fn collateral_that_is_not_whole_lots_is_refused() {
    let mut ctx = create_ctx(1_000);
    let r = initialize_option(&mut ctx, &args(55, 100), 0);
    assert_eq!(r.unwrap_err(), ErrorCode::CollateralNotMultipleOfLotSize);
    assert_eq!(ctx.underlying.count, 7);
}

#[test]
fn lot_round_trip_returns_the_collateral() {
    let mut ctx = create_ctx(1_000);
    let (account, ops) = initialize_option(&mut ctx, &args(50, 100), 0).unwrap();
    let minted = match ops[0] {
        LedgerOp::MintTo { amount, .. } => amount,
        _ => panic!("expected a mint"),
    };
    let redeemed = burn_option(&burn_ctx(account, minted, 50), minted, 10).unwrap();
    assert_eq!(transfer_amount(&redeemed[1]), 50);
}

#[test]
fn vault_balance_follows_deposits_and_redemptions() {
    let mut ctx = create_ctx(1_000);
    let (account, ops) = initialize_option(&mut ctx, &args(100, 100), 0).unwrap();
    let mut vault_balance = transfer_amount(&ops[1]);
    assert_eq!(vault_balance, 100);
    let mut claim_balance = 10;
    for amount in [3u64, 2, 4] {
        let out = burn_option(&burn_ctx(account, claim_balance, vault_balance), amount, 5).unwrap();
        vault_balance -= transfer_amount(&out[1]);
        claim_balance -= amount;
    }
    assert_eq!(vault_balance, 100 - 90);
    let (close, _) = close_option_account(&close_ctx(account, CREATOR, claim_balance, vault_balance), EXPIRY as i64).unwrap();
    assert_eq!(transfer_amount(&close[0]), 10);
}

#[test]
fn redemption_burns_claims_and_releases_lots() {
    let account = series(100);
    let ops = burn_option(&burn_ctx(account, 5, 50), 2, 10).unwrap();
    match ops[0] {
        LedgerOp::Burn { accounts, amount, signer } => {
            assert_eq!(amount, 2);
            assert!(accounts.to.same_as(&key(CLAIM_ACCOUNT)));
            assert_eq!(signer, Signer::Caller);
        }
        _ => panic!("expected a burn"),
    }
    match ops[1] {
        LedgerOp::Transfer { accounts, amount, signer } => {
            assert_eq!(amount, 20);
            assert!(accounts.from.same_as(&key(VAULT)));
            assert_eq!(signer, Signer::VaultAuthority { nonce: 252 });
        }
        _ => panic!("expected a transfer"),
    }
}

#[test]
fn late_burn_is_rejected() {
    let account = series(100);
    let ctx = burn_ctx(account, 5, 50);
    let r = burn_option(&ctx, 2, EXPIRY as i64 + 1);
    assert_eq!(r.unwrap_err(), ErrorCode::CannotBurnOptionsAfterExpiry);
    assert_eq!(ctx.user_option_token_account.amount, 5);
    assert_eq!(ctx.vault.amount, 50);
    assert!(burn_option(&ctx, 2, EXPIRY as i64).is_ok());
}

#[test]
fn any_holder_may_redeem() {
    let account = series(100);
    let holder = BurnOption {
        holder: key(STRANGER),
        underlying_token_account: TokenAccount { key: key(40), mint: key(UNDERLYING_MINT), owner: key(STRANGER), amount: 0 },
        user_option_token_account: TokenAccount { key: key(41), mint: key(OPTION_MINT), owner: key(STRANGER), amount: 3 },
        ..burn_ctx(account, 5, 50)
    };
    let ops = burn_option(&holder, 3, 10).unwrap();
    match ops[0] {
        LedgerOp::Burn { accounts, amount, signer } => {
            assert_eq!(amount, 3);
            assert!(accounts.to.same_as(&key(41)));
            assert!(accounts.authority.same_as(&key(STRANGER)));
            assert_eq!(signer, Signer::Caller);
        }
        _ => panic!("expected a burn"),
    }
    match ops[1] {
        LedgerOp::Transfer { accounts, amount, .. } => {
            assert_eq!(amount, 30);
            assert!(accounts.to.same_as(&key(40)));
        }
        _ => panic!("expected a transfer"),
    }
}

#[test]
fn redemption_errors() {
    let account = series(100);
    let settled = OptionAccount { settlement_price: 90, ..account };
    let cases: Vec<(BurnOption, u64, ErrorCode)> = vec![
        (BurnOption { underlying_token_account: TokenAccount { mint: key(99), ..funding(0) }, ..burn_ctx(account, 5, 50) }, 1, ErrorCode::TokenAccountMintMismatch),
        (BurnOption { user_option_token_account: TokenAccount { mint: key(99), ..claims(5) }, ..burn_ctx(account, 5, 50) }, 1, ErrorCode::TokenAccountMintMismatch),
        (BurnOption { underlying_token_account: TokenAccount { owner: key(STRANGER), ..funding(0) }, ..burn_ctx(account, 5, 50) }, 1, ErrorCode::InvalidTokenAccountOwner),
        (BurnOption { user_option_token_account: TokenAccount { owner: key(STRANGER), ..claims(5) }, ..burn_ctx(account, 5, 50) }, 1, ErrorCode::InvalidTokenAccountOwner),
        (burn_ctx(account, 5, 50), 6, ErrorCode::InsufficientOptionsToBurn),
        (burn_ctx(settled, 5, 50), 1, ErrorCode::CannotBurnOptionsAfterSettlementPriceIsSet),
        (burn_ctx(account, 5, 30), 4, ErrorCode::InsufficientFunds),
        (burn_ctx(account, u64::MAX, u64::MAX), u64::MAX, ErrorCode::ArithmeticOverflow),
    ];
    for (ctx, amount, expected) in cases {
        assert_eq!(burn_option(&ctx, amount, 10).unwrap_err(), expected);
    }
}

#[test]
fn out_of_the_money_settlement_leaves_the_vault_to_the_creator() {
    let account = series(100);
    let mut ctx = settle_ctx(account, 90, 5, 50);
    set_settlement_price(&mut ctx, EXPIRY as i64).unwrap();
    assert_eq!(ctx.option_account.settlement_price, 90);
    assert_eq!(ctx.option_account.remaining_collateral, 0);
    let (close, _) = close_option_account(&close_ctx(ctx.option_account, CREATOR, 5, 50), EXPIRY as i64).unwrap();
    assert_eq!(transfer_amount(&close[0]), 50);
}

#[test]
fn in_the_money_settlement_sets_aside_the_profit() {
    let account = series(100);
    let mut ctx = settle_ctx(account, 150, 5, 50);
    set_settlement_price(&mut ctx, EXPIRY as i64).unwrap();
    assert_eq!(ctx.option_account.settlement_price, 150);
    // profit per claim 10 * 50 / 150 = 3, for 5 claims 15
    assert_eq!(ctx.option_account.remaining_collateral, 50 - 15);
}

#[test]
fn settlement_price_is_fixed_once() {
    let mut ctx = settle_ctx(series(100), 120, 5, 50);
    set_settlement_price(&mut ctx, EXPIRY as i64).unwrap();
    let fixed = ctx.option_account;
    ctx.oracle = reading(130);
    assert_eq!(set_settlement_price(&mut ctx, EXPIRY as i64 + 1), Err(ErrorCode::SettlementPriceAlreadySet));
    assert_eq!(ctx.option_account.settlement_price, fixed.settlement_price);
    assert_eq!(ctx.option_account.remaining_collateral, fixed.remaining_collateral);
}

#[test]
fn settlement_window_is_enforced() {
    let base = settle_ctx(series(100), 90, 5, 50);
    let mut early = base;
    assert_eq!(set_settlement_price(&mut early, (EXPIRY - WINDOW - 1) as i64), Err(ErrorCode::BeforeSetSettlementPriceTime));
    let mut late = base;
    assert_eq!(set_settlement_price(&mut late, (EXPIRY + WINDOW + 1) as i64), Err(ErrorCode::AfterSetSettlementPriceTime));
    assert_eq!(late.option_account.settlement_price, 0);
    for now in [EXPIRY - WINDOW, EXPIRY, EXPIRY + WINDOW] {
        let mut on_time = base;
        assert_eq!(set_settlement_price(&mut on_time, now as i64), Ok(()));
    }
}

#[test]
fn settlement_errors() {
    let account = series(100);
    let base = settle_ctx(account, 150, 5, 50);
    let cases: Vec<(SetSettlementPrice, ErrorCode)> = vec![
        (SetSettlementPrice { oracle: PriceFeed { key: key(99), ..reading(150) }, ..base }, ErrorCode::InvalidOracle),
        (SetSettlementPrice { option_mint: Mint { key: key(99), decimals: 4, supply: 5 }, ..base }, ErrorCode::InvalidOracle),
        (SetSettlementPrice { oracle: reading(0), ..base }, ErrorCode::InvalidOraclePrice),
        (SetSettlementPrice { oracle: PriceFeed { price: 7, expo: -34, ..reading(150) }, ..base }, ErrorCode::InvalidOraclePrice),
        (SetSettlementPrice { oracle: PriceFeed { price: -1, ..reading(150) }, ..base }, ErrorCode::InvalidOraclePrice),
        (SetSettlementPrice { oracle: PriceFeed { expo: 1, ..reading(150) }, ..base }, ErrorCode::InvalidOraclePrice),
        (SetSettlementPrice { oracle: PriceFeed { expo: -39, ..reading(150) }, ..base }, ErrorCode::ArithmeticOverflow),
        (SetSettlementPrice { oracle: PriceFeed { expo: 0, ..reading(150) }, ..base }, ErrorCode::ArithmeticOverflow),
        (SetSettlementPrice { vault: vault(14), ..base }, ErrorCode::PayoutExceedsVault),
        (SetSettlementPrice { underlying_mint: Mint { decimals: 20, ..underlying_mint() }, ..base }, ErrorCode::UnsupportedMintDecimals),
        (SetSettlementPrice { option_mint: Mint { key: key(OPTION_MINT), decimals: 4, supply: u64::MAX }, ..base }, ErrorCode::ArithmeticOverflow),
    ];
    for (ctx, expected) in cases {
        let mut c = ctx;
        assert_eq!(set_settlement_price(&mut c, EXPIRY as i64), Err(expected));
        assert_eq!(c.option_account.settlement_price, 0);
    }
}

#[test]
fn a_window_wider_than_expiry_still_opens() {
    let wide = State { settlement_price_threshold_seconds: u64::MAX, ..state() };
    let mut ctx = SetSettlementPrice { state: wide, ..settle_ctx(series(100), 90, 5, 50) };
    assert_eq!(set_settlement_price(&mut ctx, 0), Ok(()));
    assert_eq!(ctx.option_account.settlement_price, 90);
}

#[test]
fn close_out_drains_the_vault_and_closes_accounts() {
    let account = series(100);
    let (ops, deletion) = close_option_account(&close_ctx(account, CREATOR, 4, 40), EXPIRY as i64).unwrap();
    assert!(deletion.record.same_as(&key(OPTION_ACCOUNT)));
    assert!(deletion.destination.same_as(&key(CREATOR)));
    assert_eq!(ops.len(), 4);
    assert_eq!(transfer_amount(&ops[0]), 40);
    match ops[1] {
        LedgerOp::CloseAccount { accounts, signer } => {
            assert!(accounts.account.same_as(&key(VAULT)));
            assert!(accounts.destination.same_as(&key(CREATOR)));
            assert_eq!(signer, Signer::VaultAuthority { nonce: 252 });
        }
        _ => panic!("expected the vault to close"),
    }
    match ops[2] {
        LedgerOp::Burn { amount, .. } => assert_eq!(amount, 4),
        _ => panic!("expected a burn"),
    }
    match ops[3] {
        LedgerOp::CloseAccount { accounts, signer } => {
            assert!(accounts.account.same_as(&key(CLAIM_ACCOUNT)));
            assert_eq!(signer, Signer::Caller);
        }
        _ => panic!("expected the claim account to close"),
    }
}

#[test]
fn unauthorized_close_is_rejected() {
    let account = series(100);
    let ctx = close_ctx(account, STRANGER, 4, 40);
    assert_eq!(close_option_account(&ctx, EXPIRY as i64).unwrap_err(), ErrorCode::OnlyCreatorCanCloseOptionAccount);
    assert_eq!(ctx.vault.amount, 40);
    assert!(ctx.option_account.creator.same_as(&key(CREATOR)));
}

#[test]
fn early_close_is_rejected() {
    let account = series(100);
    let ctx = close_ctx(account, CREATOR, 4, 40);
    assert_eq!(close_option_account(&ctx, EXPIRY as i64 - 1).unwrap_err(), ErrorCode::NotPastOptionCloseTime);
    let wrong_mint = CloseOptionAccount { underlying_token_account: TokenAccount { mint: key(99), ..ctx.underlying_token_account }, ..ctx };
    assert_eq!(close_option_account(&wrong_mint, EXPIRY as i64).unwrap_err(), ErrorCode::TokenAccountMintMismatch);
    let wrong_owner = CloseOptionAccount { underlying_token_account: TokenAccount { owner: key(STRANGER), ..ctx.underlying_token_account }, ..ctx };
    assert_eq!(close_option_account(&wrong_owner, EXPIRY as i64).unwrap_err(), ErrorCode::InvalidTokenAccountOwner);
}

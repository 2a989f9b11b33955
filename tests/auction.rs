use zeta_otc::accounts::TokenAccount;
use zeta_otc::auction::{
    initialize_auction, initialize_state, initialize_underlying, place_bid, AuctionAccount, ErrorCode,
    InitializeAuction, InitializeAuctionArgs, InitializeState, InitializeStateArgs, InitializeUnderlying,
    InitializeUnderlyingArgs, PlaceBid, State, Underlying,
};
use zeta_otc::key::Key;
use zeta_otc::ledger::{LedgerOp, Signer};

fn key(n: u8) -> Key {
    Key::new([n; 32])
}

fn state() -> State {
    initialize_state(&InitializeState { admin: key(1) }, &InitializeStateArgs { state_nonce: 200 })
}

fn auction_args(amount: u64, end: u64) -> InitializeAuctionArgs {
    InitializeAuctionArgs {
        auction_amount: amount,
        starting_price: 5,
        bid_end_time: end,
        cooldown_period: 60,
        auction_account_nonce: 1,
        underlying_token_nonce: 2,
        bid_token_nonce: 3,
        vault_nonce: 4,
    }
}

fn open_ctx(owner: u8, balance: u64) -> InitializeAuction {
    InitializeAuction {
        state: state(),
        underlying: Underlying { underlying_nonce: 9, count: 0 },
        underlying_token_account: TokenAccount { key: key(20), mint: key(21), owner: key(owner), amount: balance },
        vault: key(22),
        creator: key(2),
        auction_account: key(23),
        bid_token_account: key(24),
    }
}

fn auction(amount: u64) -> AuctionAccount {
    AuctionAccount {
        auction_amount: amount,
        starting_price: 5,
        bid_end_time: 100,
        cooldown_period: 60,
        auction_account_nonce: 1,
        underlying_token_nonce: 2,
        bid_token_nonce: 3,
        accepted_bid: key(0),
        creator: key(2),
    }
}

#[test]
fn auction_configuration_and_assets() {
    let s = state();
    assert_eq!(s.state_nonce, 200);
    assert!(s.admin.same_as(&key(1)));
    let ok = initialize_underlying(&InitializeUnderlying { state: s, admin: key(1) }, &InitializeUnderlyingArgs { underlying_nonce: 8 });
    assert_eq!(ok.unwrap().underlying_nonce, 8);
    let bad = initialize_underlying(&InitializeUnderlying { state: s, admin: key(3) }, &InitializeUnderlyingArgs { underlying_nonce: 8 });
    assert_eq!(bad.unwrap_err(), ErrorCode::UnauthorizedAdmin);
}

#[test]
fn opening_an_auction_deposits_the_amount() {
    let ops = initialize_auction(&open_ctx(2, 500), &auction_args(300, 100), 100).unwrap();
    assert_eq!(ops.len(), 1);
    match ops[0] {
        LedgerOp::Transfer { accounts, amount, signer } => {
            assert_eq!(amount, 300);
            assert!(accounts.from.same_as(&key(20)));
            assert!(accounts.to.same_as(&key(22)));
            assert_eq!(signer, Signer::Caller);
        }
        _ => panic!("expected a transfer"),
    }
}

#[test]
fn opening_an_auction_fails_on_bad_inputs() {
    assert_eq!(initialize_auction(&open_ctx(3, 500), &auction_args(300, 100), 0).unwrap_err(), ErrorCode::InvalidTokenAccountOwner);
    assert_eq!(initialize_auction(&open_ctx(2, 299), &auction_args(300, 100), 0).unwrap_err(), ErrorCode::InsufficientFunds);
    assert_eq!(initialize_auction(&open_ctx(2, 500), &auction_args(300, 100), 101).unwrap_err(), ErrorCode::AuctionEndTimeMustBeInTheFuture);
}

#[test]
fn a_bid_escrows_price_times_amount() {
    let ctx = PlaceBid {
        underlying: Underlying { underlying_nonce: 9, count: 0 },
        auction_account: auction(40),
        bidder_bid_token_account: TokenAccount { key: key(30), mint: key(31), owner: key(4), amount: 1_000 },
        bidder: key(4),
        vault: key(22),
    };
    let ops = place_bid(&ctx, 7).unwrap();
    match ops[0] {
        LedgerOp::Transfer { accounts, amount, .. } => {
            assert_eq!(amount, 280);
            assert!(accounts.from.same_as(&key(30)));
            assert!(accounts.authority.same_as(&key(4)));
        }
        _ => panic!("expected a transfer"),
    }
    assert_eq!(place_bid(&PlaceBid { auction_account: auction(u64::MAX), ..ctx }, 2).unwrap_err(), ErrorCode::ArithmeticOverflow);
}

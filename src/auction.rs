use vstd::prelude::*;

use crate::accounts::TokenAccount;
use crate::key::Key;
use crate::ledger::{LedgerOp, Signer, Transfer};

verus! {

/// Every way in which an auction operation can fail.
#[derive(Clone, Copy, Debug, PartialEq, Eq, Structural)]
pub enum ErrorCode {
    UnauthorizedAdmin,
    InvalidTokenAccountOwner,
    InsufficientFunds,
    AuctionEndTimeMustBeInTheFuture,
    /// The collateral of a bid does not fit in a `u64`.
    ArithmeticOverflow,
}

#[derive(Clone, Copy, Debug)]
pub struct State {
    pub state_nonce: u8,
    pub admin: Key,
}

#[derive(Clone, Copy, Debug)]
pub struct Underlying {
    pub underlying_nonce: u8,
    pub count: u64,
}

#[derive(Clone, Copy, Debug)]
pub struct AuctionAccount {
    pub auction_amount: u64,
    pub starting_price: u64,
    pub bid_end_time: u64,
    pub cooldown_period: u64,
    pub auction_account_nonce: u8,
    pub underlying_token_nonce: u8,
    pub bid_token_nonce: u8,
    pub accepted_bid: Key,
    pub creator: Key,
}

#[derive(Clone, Copy, Debug)]
pub struct BidAccount {
    pub bid_price: u64,
    pub bidder: Key,
    pub auction_account: Key,
}

#[derive(Clone, Copy, Debug)]
pub struct InitializeStateArgs {
    pub state_nonce: u8,
}

#[derive(Clone, Copy, Debug)]
pub struct InitializeUnderlyingArgs {
    pub underlying_nonce: u8,
}

#[derive(Clone, Copy, Debug)]
pub struct InitializeAuctionArgs {
    pub auction_amount: u64,
    pub starting_price: u64,
    pub bid_end_time: u64,
    pub cooldown_period: u64,
    pub auction_account_nonce: u8,
    pub underlying_token_nonce: u8,
    pub bid_token_nonce: u8,
    pub vault_nonce: u8,
}

/// Accounts for creating the auction configuration.
#[derive(Clone, Copy, Debug)]
pub struct InitializeState {
    pub admin: Key,
}

/// Accounts for registering an auctioned asset.
#[derive(Clone, Copy, Debug)]
pub struct InitializeUnderlying {
    pub state: State,
    pub admin: Key,
}

/// Accounts for opening an auction: the creator's asset account and the vault.
#[derive(Clone, Copy, Debug)]
pub struct InitializeAuction {
    pub state: State,
    pub underlying: Underlying,
    pub underlying_token_account: TokenAccount,
    pub vault: Key,
    pub creator: Key,
    pub auction_account: Key,
    pub bid_token_account: Key,
}

/// Accounts for placing a bid: the bidder's bid-token account and the vault.
#[derive(Clone, Copy, Debug)]
pub struct PlaceBid {
    pub underlying: Underlying,
    pub auction_account: AuctionAccount,
    pub bidder_bid_token_account: TokenAccount,
    pub bidder: Key,
    pub vault: Key,
}

impl InitializeAuction {
    /// The auctioned amount moves from the creator's account into the vault.
    pub fn into_transfer_context(&self) -> (r: Transfer)
        ensures
            r == (Transfer {
                from: self.underlying_token_account.key,
                to: self.vault,
                authority: self.creator,
            }),
    {
        Transfer { from: self.underlying_token_account.key, to: self.vault, authority: self.creator }
    }
}

impl PlaceBid {
    /// A bid's collateral moves from the bidder's account into the vault.
    pub fn into_transfer_context(&self) -> (r: Transfer)
        ensures
            r == (Transfer {
                from: self.bidder_bid_token_account.key,
                to: self.vault,
                authority: self.bidder,
            }),
    {
        Transfer { from: self.bidder_bid_token_account.key, to: self.vault, authority: self.bidder }
    }
}

/// Creates the auction configuration, with the signer as administrator.
pub fn initialize_state(ctx: &InitializeState, args: &InitializeStateArgs) -> (r: State)
    ensures
        r == (State { state_nonce: args.state_nonce, admin: ctx.admin }),
{
    State { state_nonce: args.state_nonce, admin: ctx.admin }
}

/// Registers an auctioned asset; only the administrator may.
pub fn initialize_underlying(ctx: &InitializeUnderlying, args: &InitializeUnderlyingArgs) -> (r: Result<
    Underlying,
    ErrorCode,
>)
    ensures
        r == (if ctx.admin == ctx.state.admin {
            Ok(Underlying { underlying_nonce: args.underlying_nonce, count: 0 })
        } else {
            Err(ErrorCode::UnauthorizedAdmin)
        }),
{
    if !ctx.state.admin.same_as(&ctx.admin) {
        return Err(ErrorCode::UnauthorizedAdmin);
    }
    Ok(Underlying { underlying_nonce: args.underlying_nonce, count: 0 })
}

/// Why an auction cannot be opened at time `now`, checked in this order.
pub open spec fn initialize_auction_error(ctx: InitializeAuction, args: InitializeAuctionArgs, now: i64) -> Option<ErrorCode> {
    if ctx.underlying_token_account.owner != ctx.creator {
        Some(ErrorCode::InvalidTokenAccountOwner)
    } else if ctx.underlying_token_account.amount < args.auction_amount {
        Some(ErrorCode::InsufficientFunds)
    } else if now as int > args.bid_end_time as int {
        Some(ErrorCode::AuctionEndTimeMustBeInTheFuture)
    } else {
        None
    }
}

/// Opens an auction whose bidding ends at `bid_end_time`: the auctioned amount
/// is deposited into the vault.
pub fn initialize_auction(ctx: &InitializeAuction, args: &InitializeAuctionArgs, now: i64) -> (r: Result<
    Vec<LedgerOp>,
    ErrorCode,
>)
    ensures
        r is Ok <==> initialize_auction_error(*ctx, *args, now) is None,
        match r {
            Ok(ops) => ops@ == seq![
                LedgerOp::Transfer {
                    accounts: Transfer {
                        from: ctx.underlying_token_account.key,
                        to: ctx.vault,
                        authority: ctx.creator,
                    },
                    amount: args.auction_amount,
                    signer: Signer::Caller,
                },
            ],
            Err(e) => initialize_auction_error(*ctx, *args, now) == Some(e),
        },
{
    if !ctx.underlying_token_account.owner.same_as(&ctx.creator) {
        return Err(ErrorCode::InvalidTokenAccountOwner);
    }
    if ctx.underlying_token_account.amount < args.auction_amount {
        return Err(ErrorCode::InsufficientFunds);
    }
    if (now as i128) > (args.bid_end_time as i128) {
        return Err(ErrorCode::AuctionEndTimeMustBeInTheFuture);
    }
    let mut ops: Vec<LedgerOp> = Vec::new();
    ops.push(
        LedgerOp::Transfer {
            accounts: ctx.into_transfer_context(),
            amount: args.auction_amount,
            signer: Signer::Caller,
        },
    );
    assert(ops@ =~= seq![ops@[0]]);
    Ok(ops)
}

/// Places a bid of `bid_price` per auctioned unit: the bid's collateral,
/// price times amount, is deposited into the vault.
pub fn place_bid(ctx: &PlaceBid, bid_price: u64) -> (r: Result<Vec<LedgerOp>, ErrorCode>)
    ensures
        r is Ok <==> bid_price * ctx.auction_account.auction_amount <= u64::MAX,
        match r {
            Ok(ops) => ops@ == seq![
                LedgerOp::Transfer {
                    accounts: Transfer {
                        from: ctx.bidder_bid_token_account.key,
                        to: ctx.vault,
                        authority: ctx.bidder,
                    },
                    amount: (bid_price * ctx.auction_account.auction_amount) as u64,
                    signer: Signer::Caller,
                },
            ],
            Err(e) => e == ErrorCode::ArithmeticOverflow,
        },
{
    let collateral_amount = match bid_price.checked_mul(ctx.auction_account.auction_amount) {
        None => {
            return Err(ErrorCode::ArithmeticOverflow);
        },
        Some(c) => c,
    };
    let mut ops: Vec<LedgerOp> = Vec::new();
    ops.push(
        LedgerOp::Transfer { accounts: ctx.into_transfer_context(), amount: collateral_amount, signer: Signer::Caller },
    );
    assert(ops@ =~= seq![ops@[0]]);
    Ok(ops)
}

} // verus!

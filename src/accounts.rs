use vstd::prelude::*;

use crate::key::Key;

verus! {

/// The global configuration: administrator, the nonces of the two key-less
/// authorities, and the half-width of the settlement window.
#[derive(Clone, Copy, Debug)]
pub struct State {
    pub state_nonce: u8,
    pub mint_auth_nonce: u8,
    pub vault_auth_nonce: u8,
    pub admin: Key,
    pub settlement_price_threshold_seconds: u64,
}

/// One backing asset: its mint, its price oracle, and the index that the next
/// series on it receives.
#[derive(Clone, Copy, Debug)]
pub struct Underlying {
    pub underlying_nonce: u8,
    pub mint: Key,
    pub oracle: Key,
    pub count: u64,
}

/// One option series. A settlement price of zero means "not yet fixed".
#[derive(Clone, Copy, Debug)]
pub struct OptionAccount {
    pub option_account_nonce: u8,
    pub option_mint_nonce: u8,
    pub creator_option_token_account_nonce: u8,
    pub vault_nonce: u8,
    pub underlying_count: u64,
    pub option_mint: Key,
    pub underlying_mint: Key,
    pub creator: Key,
    pub strike: u64,
    pub expiry: u64,
    pub settlement_price: u64,
    pub mint_supply_at_settlement: u64,
    pub profit_per_option: u64,
    pub remaining_collateral: u64,
}

/// What the engine reads of a token mint.
#[derive(Clone, Copy, Debug)]
pub struct Mint {
    pub key: Key,
    pub decimals: u8,
    pub supply: u64,
}

/// What the engine reads of a token account.
#[derive(Clone, Copy, Debug)]
pub struct TokenAccount {
    pub key: Key,
    pub mint: Key,
    pub owner: Key,
    pub amount: u64,
}

/// What a price feed reports.
#[derive(Clone, Copy, Debug, PartialEq, Eq, Structural)]
pub enum PriceType {
    Unknown,
    Price,
    Twap,
    Volatility,
}

/// A price-oracle reading: the price is `price * 10^expo`, with confidence
/// interval `conf`.
#[derive(Clone, Copy, Debug)]
pub struct PriceFeed {
    pub key: Key,
    pub ptype: PriceType,
    pub price: i64,
    pub expo: i32,
    pub conf: u64,
}

#[derive(Clone, Copy, Debug)]
pub struct InitializeOptionArgs {
    pub collateral_amount: u64,
    pub option_account_nonce: u8,
    pub option_mint_nonce: u8,
    pub token_account_nonce: u8,
    pub vault_nonce: u8,
    pub expiry: u64,
    pub strike: u64,
}

#[derive(Clone, Copy, Debug)]
pub struct InitializeStateArgs {
    pub state_nonce: u8,
    pub mint_auth_nonce: u8,
    pub vault_auth_nonce: u8,
    pub settlement_price_threshold_seconds: u64,
}

#[derive(Clone, Copy, Debug)]
pub struct InitializeUnderlyingArgs {
    pub underlying_nonce: u8,
}

} // verus!

use vstd::prelude::*;

use crate::accounts::{Mint, PriceFeed};
use crate::error::ErrorCode;

verus! {

/// Decimal places of every claim-token mint.
pub const OPTION_MINT_DECIMALS: u8 = 4;

/// Decimal places of the fixed-point scale in which oracle prices (and so
/// strikes and settlement prices) are expressed.
pub const USDC_DECIMALS: u32 = 32;

/// Ten to the power `n`.
pub open spec fn pow10(n: nat) -> nat
    decreases n,
{
    if n == 0 {
        1
    } else {
        10 * pow10((n - 1) as nat)
    }
}

pub proof fn lemma_pow10_positive(n: nat)
    ensures
        pow10(n) >= 1,
    decreases n,
{
    if n > 0 {
        lemma_pow10_positive((n - 1) as nat);
    }
}

pub proof fn lemma_pow10_monotone(a: nat, b: nat)
    requires
        a <= b,
    ensures
        pow10(a) <= pow10(b),
    decreases b,
{
    if a < b {
        lemma_pow10_monotone(a, (b - 1) as nat);
        lemma_pow10_positive((b - 1) as nat);
    }
}

proof fn lemma_pow10_bounds()
    ensures
        pow10(19) == 10_000_000_000_000_000_000,
        pow10(38) == 100_000_000_000_000_000_000_000_000_000_000_000_000,
        pow10(4) == 10_000,
{
    reveal_with_fuel(pow10, 39);
}

/// `10^n` as a `u64`: defined for `n <= 19`.
pub fn pow10_u64(n: u32) -> (r: Option<u64>)
    ensures
        r == (if n <= 19 { Some(pow10(n as nat) as u64) } else { None::<u64> }),
{
    if n > 19 {
        return None;
    }
    proof {
        lemma_pow10_bounds();
    }
    let mut acc: u64 = 1;
    let mut i: u32 = 0;
    while i < n
        invariant
            n <= 19,
            i <= n,
            acc == pow10(i as nat),
        decreases n - i,
    {
        proof {
            lemma_pow10_bounds();
            lemma_pow10_monotone((i + 1) as nat, 19);
            assert(pow10((i + 1) as nat) == 10 * pow10(i as nat));
        }
        acc = acc * 10;
        i = i + 1;
    }
    Some(acc)
}

/// `10^n` as a `u128`: defined for `n <= 38`.
pub fn pow10_u128(n: u32) -> (r: Option<u128>)
    ensures
        r == (if n <= 38 { Some(pow10(n as nat) as u128) } else { None::<u128> }),
{
    if n > 38 {
        return None;
    }
    proof {
        lemma_pow10_bounds();
    }
    let mut acc: u128 = 1;
    let mut i: u32 = 0;
    while i < n
        invariant
            n <= 38,
            i <= n,
            acc == pow10(i as nat),
        decreases n - i,
    {
        proof {
            lemma_pow10_bounds();
            lemma_pow10_monotone((i + 1) as nat, 38);
            assert(pow10((i + 1) as nat) == 10 * pow10(i as nat));
        }
        acc = acc * 10;
        i = i + 1;
    }
    Some(acc)
}

/// Whether a mint with `decimals` decimal places has a lot size: `10^decimals`
/// must fit in a `u64`.
pub open spec fn decimals_supported(decimals: u8) -> bool {
    decimals <= 19
}

/// Units of the underlying asset that back one claim token:
/// `10^underlying_decimals / 10^OPTION_MINT_DECIMALS`.
pub open spec fn lot_size(decimals: u8) -> nat {
    pow10(decimals as nat) / pow10(OPTION_MINT_DECIMALS as nat)
}

/// The lot size of an underlying mint: units of it per claim token.
pub fn get_token_amount_per_option(mint_account: &Mint) -> (r: Result<u64, ErrorCode>)
    ensures
        r == (if decimals_supported(mint_account.decimals) {
            Ok(lot_size(mint_account.decimals) as u64)
        } else {
            Err(ErrorCode::UnsupportedMintDecimals)
        }),
{
    let decimals = mint_account.decimals;
    match pow10_u64(decimals as u32) {
        None => Err(ErrorCode::UnsupportedMintDecimals),
        Some(underlying_unit) => {
            proof {
                lemma_pow10_bounds();
                lemma_pow10_monotone(decimals as nat, 19);
            }
            let option_unit: u64 = 10_000;
            Ok(underlying_unit / option_unit)
        },
    }
}

/// A supported lot size fits in a `u64`.
pub proof fn lemma_lot_size_fits(decimals: u8)
    requires
        decimals_supported(decimals),
    ensures
        lot_size(decimals) <= pow10(decimals as nat) <= u64::MAX,
{
    lemma_pow10_bounds();
    lemma_pow10_monotone(decimals as nat, 19);
    lemma_pow10_positive(OPTION_MINT_DECIMALS as nat);
    let a = pow10(decimals as nat);
    let b = pow10(OPTION_MINT_DECIMALS as nat);
    assert(a / b <= a) by (nonlinear_arith)
        requires
            b >= 1,
    ;
}

/// An oracle reading `price * 10^expo` on the fixed-point scale:
/// `price * 10^USDC_DECIMALS / 10^(-expo)`, rounded toward zero.
pub open spec fn normalized_price(price: i64, expo: i32) -> nat
    recommends
        price >= 0,
        expo <= 0,
{
    ((price as nat) * pow10(USDC_DECIMALS as nat)) / pow10((-expo) as nat)
}

/// Whether an oracle reading can be normalised without leaving `u128`.
pub open spec fn normalizable(price: i64, expo: i32) -> bool {
    &&& price >= 0
    &&& expo <= 0
    &&& -expo <= 38
    &&& (price as nat) * pow10(USDC_DECIMALS as nat) <= u128::MAX
}

/// The oracle's current price on the fixed-point scale (see `normalize_oracle_price`).
pub fn get_oracle_price(oracle: &PriceFeed) -> (r: Result<u128, ErrorCode>)
    ensures
        r == (if oracle.price < 0 || oracle.expo > 0 {
            Err(ErrorCode::InvalidOraclePrice)
        } else if normalizable(oracle.price, oracle.expo) {
            Ok(normalized_price(oracle.price, oracle.expo) as u128)
        } else {
            Err(ErrorCode::ArithmeticOverflow)
        }),
{
    normalize_oracle_price(oracle.price, oracle.expo)
}

/// A normalisable reading normalises to a value that fits in a `u128`.
pub proof fn lemma_normalized_fits(price: i64, expo: i32)
    requires
        normalizable(price, expo),
    ensures
        normalized_price(price, expo) <= u128::MAX,
{
    lemma_pow10_positive((-expo) as nat);
    let a = (price as nat) * pow10(USDC_DECIMALS as nat);
    let b = pow10((-expo) as nat);
    assert(a / b <= a) by (nonlinear_arith)
        requires
            b >= 1,
    ;
}

/// Normalises an oracle reading `(price, expo)` to the fixed-point scale.
///
/// Fails with `InvalidOraclePrice` on a negative price or a positive
/// exponent, and with `ArithmeticOverflow` where a power of ten or the
/// scaled price does not fit in a `u128`.
pub fn normalize_oracle_price(price: i64, expo: i32) -> (r: Result<u128, ErrorCode>)
    ensures
        r == (if price < 0 || expo > 0 {
            Err(ErrorCode::InvalidOraclePrice)
        } else if normalizable(price, expo) {
            Ok(normalized_price(price, expo) as u128)
        } else {
            Err(ErrorCode::ArithmeticOverflow)
        }),
{
    if price < 0 || expo > 0 {
        return Err(ErrorCode::InvalidOraclePrice);
    }
    let neg_expo: i64 = -(expo as i64);
    if neg_expo > 38 {
        return Err(ErrorCode::ArithmeticOverflow);
    }
    let scale = pow10_u128(USDC_DECIMALS).unwrap();
    let divisor = pow10_u128(neg_expo as u32).unwrap();
    proof {
        lemma_pow10_bounds();
        lemma_pow10_positive(neg_expo as nat);
        lemma_pow10_monotone(neg_expo as nat, 38);
        lemma_pow10_monotone(USDC_DECIMALS as nat, 38);
        assert(scale == pow10(USDC_DECIMALS as nat));
        assert(divisor == pow10((-expo) as nat));
    }
    match (price as u128).checked_mul(scale) {
        None => Err(ErrorCode::ArithmeticOverflow),
        Some(scaled) => Ok(scaled / divisor),
    }
}

/// Profit owed per claim token in the money: `lot * (price - strike) / price`,
/// rounded toward zero (in favour of the collateral pool).
pub open spec fn profit_per_option(lot: nat, price: nat, strike: nat) -> nat
    recommends
        price > strike,
{
    (lot * (price - strike) as nat) / price
}

/// Total profit owed to the claim supply.
pub open spec fn total_profit(lot: nat, price: nat, strike: nat, supply: nat) -> nat {
    profit_per_option(lot, price, strike) * supply
}

/// Whether the in-the-money payout can be computed without overflow.
pub open spec fn payout_computable(lot: nat, price: nat, strike: nat, supply: nat) -> bool {
    &&& lot * (price - strike) as nat <= u64::MAX
    &&& total_profit(lot, price, strike, supply) <= u64::MAX
}

/// Collateral left to the creator once an in-the-money settlement at `price`
/// has set aside the profit of `supply` claims of `lot` units each, from a
/// vault holding `vault`.
pub fn remaining_collateral_after_payout(
    lot: u64,
    price: u64,
    strike: u64,
    supply: u64,
    vault: u64,
) -> (r: Result<u64, ErrorCode>)
    requires
        price > strike,
    ensures
        r == (if !payout_computable(lot as nat, price as nat, strike as nat, supply as nat) {
            Err(ErrorCode::ArithmeticOverflow)
        } else if total_profit(lot as nat, price as nat, strike as nat, supply as nat) > vault {
            Err(ErrorCode::PayoutExceedsVault)
        } else {
            Ok((vault - total_profit(lot as nat, price as nat, strike as nat, supply as nat)) as u64)
        }),
{
    let itm_amount = price - strike;
    match lot.checked_mul(itm_amount) {
        None => Err(ErrorCode::ArithmeticOverflow),
        Some(scaled) => {
            let per_option = scaled / price;
            match per_option.checked_mul(supply) {
                None => Err(ErrorCode::ArithmeticOverflow),
                Some(total) => match vault.checked_sub(total) {
                    None => Err(ErrorCode::PayoutExceedsVault),
                    Some(rest) => Ok(rest),
                },
            }
        },
    }
}

} // verus!

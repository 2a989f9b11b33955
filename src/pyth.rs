use vstd::prelude::*;

use crate::accounts::{PriceFeed, PriceType};

verus! {

/// Accounts for writing a first reading into a price feed.
#[derive(Clone, Copy, Debug)]
pub struct Initialize {
    pub price: PriceFeed,
}

/// Accounts for updating the price of a feed.
#[derive(Clone, Copy, Debug)]
pub struct SetPrice {
    pub price: PriceFeed,
}

/// Writes a full reading (price, exponent, confidence) into the feed and
/// marks it as a price.
pub fn initialize(ctx: &mut Initialize, price: i64, expo: i32, conf: u64)
    ensures
        final(ctx).price == (PriceFeed { ptype: PriceType::Price, price, expo, conf, ..old(ctx).price }),
{
    ctx.price.ptype = PriceType::Price;
    ctx.price.price = price;
    ctx.price.conf = conf;
    ctx.price.expo = expo;
}

/// Replaces the feed's price, keeping its exponent and confidence.
pub fn set_price(ctx: &mut SetPrice, price: i64)
    ensures
        final(ctx).price == (PriceFeed { price, ..old(ctx).price }),
{
    ctx.price.price = price;
}

} // verus!

use vstd::prelude::*;

use crate::accounts::{PriceFeed, PriceType};
use crate::key::Key;

verus! {

/// Byte offset of the price type in a price account.
pub const PTYPE_OFFSET: usize = 16;

/// Byte offset of the price exponent in a price account.
pub const EXPO_OFFSET: usize = 20;

/// Byte offset of the aggregate price in a price account.
pub const AGG_PRICE_OFFSET: usize = 208;

/// Byte offset of the aggregate confidence interval in a price account.
pub const AGG_CONF_OFFSET: usize = 216;

/// The unsigned value of little-endian bytes.
pub open spec fn le_value(bytes: Seq<u8>) -> nat
    decreases bytes.len(),
{
    if bytes.len() == 0 {
        0
    } else {
        bytes[0] as nat + 256 * le_value(bytes.drop_first())
    }
}

/// `256^n`.
pub open spec fn radix(n: nat) -> nat
    decreases n,
{
    if n == 0 {
        1
    } else {
        256 * radix((n - 1) as nat)
    }
}

proof fn lemma_le_value_bound(bytes: Seq<u8>)
    ensures
        le_value(bytes) < radix(bytes.len()),
    decreases bytes.len(),
{
    if bytes.len() > 0 {
        lemma_le_value_bound(bytes.drop_first());
        let rest = le_value(bytes.drop_first());
        let r = radix(bytes.drop_first().len());
        assert(bytes[0] as nat + 256 * rest < 256 * r) by (nonlinear_arith)
            requires
                rest < r,
                bytes[0] < 256,
        ;
    }
}

/// The unsigned little-endian value of `data[start..start + n]`.
fn read_le(data: &Vec<u8>, start: usize, n: usize) -> (r: u64)
    requires
        n <= 8,
        start + n <= data@.len(),
    ensures
        r as nat == le_value(data@.subrange(start as int, start + n)),
{
    let len = data.len();
    assert(start + n <= len);
    let end = start + n;
    let mut acc: u64 = 0;
    let mut i: usize = end;
    proof {
        assert(data@.subrange(end as int, end as int) =~= Seq::<u8>::empty());
    }
    while i > start
        invariant
            start <= i <= end,
            end == start + n,
            n <= 8,
            end <= data@.len(),
            acc as nat == le_value(data@.subrange(i as int, end as int)),
        decreases i - start,
    {
        let ghost tail = data@.subrange(i as int, end as int);
        let ghost longer = data@.subrange(i - 1, end as int);
        proof {
            assert(longer.drop_first() =~= tail);
            lemma_le_value_bound(longer);
            assert(radix(longer.len()) <= radix(8)) by {
                lemma_radix_monotone(longer.len(), 8);
            }
            assert(radix(8) == 0x1_0000_0000_0000_0000) by {
                reveal_with_fuel(radix, 9);
            }
        }
        acc = acc * 256 + data[i - 1] as u64;
        i = i - 1;
    }
    acc
}

proof fn lemma_radix_monotone(a: nat, b: nat)
    requires
        a <= b,
    ensures
        radix(a) <= radix(b),
    decreases b,
{
    if a < b {
        lemma_radix_monotone(a, (b - 1) as nat);
    }
}

/// Two's-complement reading of an unsigned value of `bits` bits.
pub open spec fn signed(value: nat, bits: nat) -> int {
    if value >= radix(bits / 8) / 2 {
        value - radix(bits / 8)
    } else {
        value as int
    }
}

/// Whether `data` is long enough to hold the fields of a price account that
/// the engine reads.
pub open spec fn holds_price(data: Seq<u8>) -> bool {
    data.len() >= AGG_CONF_OFFSET + 8
}

/// The price type that its code stands for, if any.
pub open spec fn price_type_of(code: nat) -> Option<PriceType> {
    if code == 0 {
        Some(PriceType::Unknown)
    } else if code == 1 {
        Some(PriceType::Price)
    } else if code == 2 {
        Some(PriceType::Twap)
    } else if code == 3 {
        Some(PriceType::Volatility)
    } else {
        None
    }
}

/// The code of the price type in a price account's bytes.
pub open spec fn ptype_code(data: Seq<u8>) -> nat {
    le_value(data.subrange(PTYPE_OFFSET as int, PTYPE_OFFSET + 4))
}

/// The reading that a price account's bytes hold, given its price type.
pub open spec fn price_feed_of(key: Key, ptype: PriceType, data: Seq<u8>) -> PriceFeed {
    PriceFeed {
        key,
        ptype,
        price: signed(le_value(data.subrange(AGG_PRICE_OFFSET as int, AGG_PRICE_OFFSET + 8)), 64) as i64,
        expo: signed(le_value(data.subrange(EXPO_OFFSET as int, EXPO_OFFSET + 4)), 32) as i32,
        conf: le_value(data.subrange(AGG_CONF_OFFSET as int, AGG_CONF_OFFSET + 8)) as u64,
    }
}

/// Reads the price type, exponent, aggregate price and confidence out of the
/// bytes of the price account `key`; `None` where the account is too short
/// to hold them or holds no known price type.
pub fn read_price_feed(key: Key, data: &Vec<u8>) -> (r: Option<PriceFeed>)
    ensures
        r == (if holds_price(data@) && price_type_of(ptype_code(data@)) is Some {
            Some(price_feed_of(key, price_type_of(ptype_code(data@))->Some_0, data@))
        } else {
            None::<PriceFeed>
        }),
{
    if data.len() < AGG_CONF_OFFSET + 8 {
        return None;
    }
    proof {
        reveal_with_fuel(radix, 9);
    }
    let code = read_le(data, PTYPE_OFFSET, 4);
    let ptype = if code == 0 {
        PriceType::Unknown
    } else if code == 1 {
        PriceType::Price
    } else if code == 2 {
        PriceType::Twap
    } else if code == 3 {
        PriceType::Volatility
    } else {
        return None;
    };
    let expo_bits = read_le(data, EXPO_OFFSET, 4);
    let price_bits = read_le(data, AGG_PRICE_OFFSET, 8);
    let conf = read_le(data, AGG_CONF_OFFSET, 8);
    proof {
        lemma_le_value_bound(data@.subrange(EXPO_OFFSET as int, EXPO_OFFSET + 4));
    }
    let expo: i32 = if expo_bits >= 0x8000_0000 {
        (expo_bits as i64 - 0x1_0000_0000) as i32
    } else {
        expo_bits as i32
    };
    let price: i64 = if price_bits >= 0x8000_0000_0000_0000 {
        (price_bits - 0x8000_0000_0000_0000) as i64 - 0x4000_0000_0000_0000 - 0x4000_0000_0000_0000
    } else {
        price_bits as i64
    };
    Some(PriceFeed { key, ptype, price, expo, conf })
}

} // verus!

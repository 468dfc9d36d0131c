use vstd::prelude::*;

use anchor_lang::AnchorDeserialize;
use pyth_sdk_solana::PriceFeed;

use crate::error::DefiError;

verus! {

/// Largest distance, in seconds, between a sample's publish time and now.
pub const MAX_PRICE_AGE_SECONDS: u64 = 60;

/// Largest confidence interval accepted, in basis points of the price.
pub const MAX_CONFIDENCE_BASIS_POINTS: u64 = 200;

/// Bytes a serialized price feed occupies: a 32-byte identifier, then the
/// current and the moving-average price records of 28 bytes each.
pub const PRICE_FEED_LEN: usize = 88;

/// The latest price record of an oracle feed: `price * 10^expo`, give or take
/// `conf * 10^expo`, published at Unix time `publish_time`.
#[derive(Clone, Copy, Debug, PartialEq, Eq, Structural)]
pub struct PriceSample {
    pub price: i64,
    pub conf: u64,
    pub expo: i32,
    pub publish_time: i64,
}

/// What an impermanent-loss check advises.
#[derive(Clone, Copy, Debug, PartialEq, Eq, Structural)]
pub enum MitigationSignal {
    /// The price is above the threshold: rebalancing is recommended.
    RebalanceRecommended { price: u64 },
    /// The price is within the threshold: nothing to do.
    Hold { price: u64 },
}

/// Little-endian unsigned value of the 4 bytes at `off`.
pub open spec fn le_u32_at(s: Seq<u8>, off: int) -> int {
    s[off] + 256 * (s[off + 1] + 256 * (s[off + 2] + 256 * s[off + 3] as int))
}

/// Little-endian unsigned value of the 8 bytes at `off`.
pub open spec fn le_u64_at(s: Seq<u8>, off: int) -> int {
    le_u32_at(s, off) + 0x1_0000_0000 * le_u32_at(s, off + 4)
}

/// Two's-complement reading of a 32-bit pattern.
pub open spec fn signed32(u: int) -> int {
    if u >= 0x8000_0000 {
        u - 0x1_0000_0000
    } else {
        u
    }
}

/// Two's-complement reading of a 64-bit pattern.
pub open spec fn signed64(u: int) -> int {
    if u >= 0x8000_0000_0000_0000 {
        u - 0x1_0000_0000_0000_0000
    } else {
        u
    }
}

/// The current price record of a serialized feed, or `None` when the bytes
/// are too few to hold one.
pub open spec fn decoded_price_feed(s: Seq<u8>) -> Option<PriceSample> {
    if s.len() < PRICE_FEED_LEN {
        None
    } else {
        Some(
            PriceSample {
                price: signed64(le_u64_at(s, 32)) as i64,
                conf: le_u64_at(s, 40) as u64,
                expo: signed32(le_u32_at(s, 48)) as i32,
                publish_time: signed64(le_u64_at(s, 52)) as i64,
            },
        )
    }
}

/// The price a sample can be trusted for at Unix time `now`: a non-negative price,
/// published at most `MAX_PRICE_AGE_SECONDS` away from now, with a confidence
/// interval of at most `MAX_CONFIDENCE_BASIS_POINTS` of the price.
pub open spec fn usable_price(sample: Option<PriceSample>, now: i64) -> Option<u64> {
    match sample {
        None => None,
        Some(s) => {
            let age = s.publish_time - now;
            if s.price < 0 {
                None
            } else if age > MAX_PRICE_AGE_SECONDS || -age > MAX_PRICE_AGE_SECONDS {
                None
            } else if s.conf * 10000 > s.price * MAX_CONFIDENCE_BASIS_POINTS {
                None
            } else {
                Some(s.price as u64)
            }
        },
    }
}

/// The advice for a sample against `price_threshold`.
pub open spec fn mitigation_of(sample: Option<PriceSample>, price_threshold: u64, now: i64) -> Result<
    MitigationSignal,
    DefiError,
> {
    match usable_price(sample, now) {
        None => Err(DefiError::OracleUnavailable),
        Some(p) => Ok(
            if p > price_threshold {
                MitigationSignal::RebalanceRecommended { price: p }
            } else {
                MitigationSignal::Hold { price: p }
            },
        ),
    }
}

/// Relies on the borsh decoding that `pyth_sdk_solana::PriceFeed` derives
/// (`deserialize` reads a 32-byte id and then the fields `price: i64`,
/// `conf: u64`, `expo: i32`, `publish_time: i64` of two price records, each
/// little-endian, and fails on fewer bytes), and on
/// `PriceFeed::get_price_unchecked`, which returns the first record.
#[verifier::external_body]
fn decode_price_feed(data: &[u8]) -> (r: Option<PriceSample>)
    ensures
        r == decoded_price_feed(data@),
{
    let mut buf: &[u8] = data;
    match <PriceFeed as AnchorDeserialize>::deserialize(&mut buf) {
        Ok(feed) => {
            let p = feed.get_price_unchecked();
            Some(
                PriceSample {
                    price: p.price,
                    conf: p.conf,
                    expo: p.expo,
                    publish_time: p.publish_time,
                },
            )
        },
        Err(_) => None,
    }
}

/// Whether a sample can be trusted at `now`, and for which price.
pub fn check_sample(sample: Option<PriceSample>, now: i64) -> (r: Result<u64, DefiError>)
    ensures
        usable_price(sample, now) matches Some(p) ==> r == Ok::<u64, DefiError>(p),
        usable_price(sample, now) is None ==> r == Err::<u64, DefiError>(
            DefiError::OracleUnavailable,
        ),
{
    let s = match sample {
        None => return Err(DefiError::OracleUnavailable),
        Some(s) => s,
    };
    if s.price < 0 {
        return Err(DefiError::OracleUnavailable);
    }
    let age: i128 = (s.publish_time as i128) - (now as i128);
    if age > (MAX_PRICE_AGE_SECONDS as i128) || -age > (MAX_PRICE_AGE_SECONDS as i128) {
        return Err(DefiError::OracleUnavailable);
    }
    proof {
        let c = s.conf as int;
        let p = s.price as int;
        assert(c * 10000 <= u128::MAX) by (nonlinear_arith)
            requires
                0 <= c <= u64::MAX,
        ;
        assert(p * 200 <= u128::MAX) by (nonlinear_arith)
            requires
                0 <= p <= i64::MAX,
        ;
    }
    if (s.conf as u128) * 10000 > (s.price as u128) * (MAX_CONFIDENCE_BASIS_POINTS as u128) {
        return Err(DefiError::OracleUnavailable);
    }
    Ok(s.price as u64)
}

/// The advice for a sample against `price_threshold` at Unix time `now`.
pub fn evaluate_mitigation(sample: Option<PriceSample>, price_threshold: u64, now: i64) -> (r:
    Result<MitigationSignal, DefiError>)
    ensures
        r == mitigation_of(sample, price_threshold, now),
{
    match check_sample(sample, now) {
        Err(e) => Err(e),
        Ok(p) => Ok(
            if p > price_threshold {
                MitigationSignal::RebalanceRecommended { price: p }
            } else {
                MitigationSignal::Hold { price: p }
            },
        ),
    }
}

/// The trusted price held in a serialized feed at Unix time `now`.
pub fn get_price(price_feed: &[u8], now: i64) -> (r: Result<u64, DefiError>)
    ensures
        usable_price(decoded_price_feed(price_feed@), now) matches Some(p) ==> r == Ok::<
            u64,
            DefiError,
        >(p),
        usable_price(decoded_price_feed(price_feed@), now) is None ==> r == Err::<u64, DefiError>(
            DefiError::OracleUnavailable,
        ),
{
    check_sample(decode_price_feed(price_feed), now)
}

/// Reads a serialized feed and advises on impermanent loss against
/// `price_threshold`; it moves no funds.
pub fn mitigate_impermanent_loss(price_feed: &[u8], price_threshold: u64, now: i64) -> (r: Result<
    MitigationSignal,
    DefiError,
>)
    ensures
        r == mitigation_of(decoded_price_feed(price_feed@), price_threshold, now),
{
    evaluate_mitigation(decode_price_feed(price_feed), price_threshold, now)
}

} // verus!

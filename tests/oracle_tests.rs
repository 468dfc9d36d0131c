use anchor_lang::AnchorSerialize;
use pyth_sdk_solana::{Price, PriceFeed, PriceIdentifier};
use solana_defi_flow::error::DefiError;
use solana_defi_flow::oracle::{
    evaluate_mitigation, get_price, mitigate_impermanent_loss, MitigationSignal, PriceSample,
};

fn feed_bytes(price: i64, conf: u64, publish_time: i64) -> Vec<u8> {
    let current = Price { price, conf, expo: -2, publish_time };
    let ema = Price { price: 1, conf: 1, expo: -2, publish_time: 0 };
    let feed = PriceFeed::new(PriceIdentifier::new([4u8; 32]), current, ema);
    feed.try_to_vec().unwrap()
}

#[test]
fn price_read_from_serialized_feed() {
    let data = feed_bytes(12_345, 10, 1_000);
    assert_eq!(data.len(), 88);
    assert_eq!(get_price(&data, 1_030), Ok(12_345));
}

#[test]
fn mitigation_above_threshold_recommends_rebalance() {
    let data = feed_bytes(12_345, 10, 1_000);
    assert_eq!(
        mitigate_impermanent_loss(&data, 12_000, 1_000),
        Ok(MitigationSignal::RebalanceRecommended { price: 12_345 })
    );
    assert_eq!(
        mitigate_impermanent_loss(&data, 12_345, 1_000),
        Ok(MitigationSignal::Hold { price: 12_345 })
    );
}

#[test]
fn short_feed_is_unavailable() {
    let data = feed_bytes(12_345, 10, 1_000);
    assert_eq!(get_price(&data[..87], 1_000), Err(DefiError::OracleUnavailable));
    assert_eq!(mitigate_impermanent_loss(&[], 0, 0), Err(DefiError::OracleUnavailable));
}

#[test]
fn stale_feed_is_unavailable() {
    let data = feed_bytes(12_345, 10, 1_000);
    assert_eq!(get_price(&data, 1_060), Ok(12_345));
    assert_eq!(get_price(&data, 1_061), Err(DefiError::OracleUnavailable));
    assert_eq!(get_price(&data, 939), Err(DefiError::OracleUnavailable));
}

#[test]
fn wide_confidence_is_unavailable() {
    // 2% of 10_000 is 200
    assert_eq!(get_price(&feed_bytes(10_000, 200, 5), 5), Ok(10_000));
    assert_eq!(get_price(&feed_bytes(10_000, 201, 5), 5), Err(DefiError::OracleUnavailable));
}

#[test]
fn zero_price_is_a_price() {
    assert_eq!(get_price(&feed_bytes(0, 0, 5), 5), Ok(0));
    assert_eq!(
        mitigate_impermanent_loss(&feed_bytes(0, 0, 5), 0, 5),
        Ok(MitigationSignal::Hold { price: 0 })
    );
}

#[test]
fn negative_price_is_unavailable() {
    assert_eq!(get_price(&feed_bytes(-5, 0, 5), 5), Err(DefiError::OracleUnavailable));
}

#[test]
fn missing_sample_is_unavailable() {
    assert_eq!(evaluate_mitigation(None, 10, 0), Err(DefiError::OracleUnavailable));
    let sample = PriceSample { price: 50, conf: 1, expo: 0, publish_time: -3 };
    assert_eq!(
        evaluate_mitigation(Some(sample), 10, 0),
        Ok(MitigationSignal::RebalanceRecommended { price: 50 })
    );
}

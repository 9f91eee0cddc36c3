//! Sanitization and validation of the coin value types.

use cointracker::coin::{
    CoinId, CoinLastUpdated, CoinMarketCap, CoinName, CoinPercentChange1h, CoinPercentChange24h,
    CoinPercentChange7d, CoinPrice, CoinSymbol, CoinVolume24h,
};
use cointracker::domain::Value;

fn bits(x: f64) -> u64 {
    x.to_bits()
}

#[test]
fn price_rejected_patterns_become_absent() {
    for x in [0.0, f64::NAN, f64::INFINITY, f64::NEG_INFINITY, -1.0, -0.0] {
        let price = CoinPrice::try_from(bits(x)).unwrap();
        assert_eq!(*price.value(), None, "price {x} should be absent");
    }
}

#[test]
fn price_positive_finite_kept_unchanged() {
    for x in [50000.0, 0.0001, 1e12, f64::MIN_POSITIVE] {
        let price = CoinPrice::try_from(bits(x)).unwrap();
        assert_eq!(*price.value(), Some(bits(x)));
        assert_eq!(f64::from_bits(price.value().unwrap()), x);
    }
}

#[test]
fn volume_and_market_cap_follow_the_amount_rule() {
    for x in [0.0, f64::NAN, f64::INFINITY, f64::NEG_INFINITY, -1.0] {
        assert_eq!(*CoinVolume24h::try_from(bits(x)).unwrap().value(), None);
        assert_eq!(*CoinMarketCap::try_from(bits(x)).unwrap().value(), None);
    }
    assert_eq!(
        *CoinVolume24h::try_from(bits(1e9)).unwrap().value(),
        Some(bits(1e9))
    );
    assert_eq!(
        *CoinMarketCap::try_from(bits(1e12)).unwrap().value(),
        Some(bits(1e12))
    );
}

#[test]
fn percent_changes_zero_nan_infinite_become_absent() {
    for x in [0.0, f64::NAN, f64::INFINITY, f64::NEG_INFINITY] {
        assert_eq!(*CoinPercentChange1h::try_from(bits(x)).unwrap().value(), None);
        assert_eq!(*CoinPercentChange24h::try_from(bits(x)).unwrap().value(), None);
        assert_eq!(*CoinPercentChange7d::try_from(bits(x)).unwrap().value(), None);
    }
}

#[test]
fn percent_changes_keep_negative_finite_values() {
    let p = CoinPercentChange1h::try_from(bits(-5.0)).unwrap();
    assert_eq!(*p.value(), Some(bits(-5.0)));
    assert_eq!(f64::from_bits(p.value().unwrap()), -5.0);
    assert_eq!(
        *CoinPercentChange24h::try_from(bits(-1.2)).unwrap().value(),
        Some(bits(-1.2))
    );
    assert_eq!(
        *CoinPercentChange7d::try_from(bits(3.0)).unwrap().value(),
        Some(bits(3.0))
    );
}

#[test]
fn coin_id_must_be_positive() {
    assert_eq!(*CoinId::try_from(1).unwrap().value(), 1);
    assert_eq!(*CoinId::try_from(u32::MAX).unwrap().value(), u32::MAX);
    assert_eq!(
        CoinId::try_from(0).unwrap_err(),
        "Coin ID must be greater than 0"
    );
}

#[test]
fn coin_strings_must_be_non_empty() {
    assert_eq!(
        *CoinName::try_from("Bitcoin".to_string()).unwrap().value(),
        "Bitcoin"
    );
    assert_eq!(
        CoinName::try_from(String::new()).unwrap_err(),
        "Coin name must not be empty"
    );
    assert_eq!(
        *CoinSymbol::try_from("BTC".to_string()).unwrap().value(),
        "BTC"
    );
    assert_eq!(
        CoinSymbol::try_from(String::new()).unwrap_err(),
        "Coin symbol must not be empty"
    );
    assert_eq!(
        *CoinLastUpdated::try_from("2024-01-01T00:00:00.000Z".to_string())
            .unwrap()
            .value(),
        "2024-01-01T00:00:00.000Z"
    );
    assert_eq!(
        CoinLastUpdated::try_from(String::new()).unwrap_err(),
        "Coin last updated must not be empty"
    );
}

//! Construction of the `Coin` and `Setting` entities.

use cointracker::coin::Coin;
use cointracker::domain::Value;
use cointracker::settings::{Setting, SettingError};

fn bits(x: f64) -> u64 {
    x.to_bits()
}

fn sample_coin() -> Result<Coin, &'static str> {
    Coin::new(
        1,
        "Bitcoin".to_string(),
        "BTC".to_string(),
        bits(50000.0),
        bits(1e9),
        bits(0.5),
        bits(-1.2),
        bits(3.0),
        bits(1e12),
        "2024-01-01T00:00:00.000Z".to_string(),
    )
}

#[test]
fn coin_new_succeeds_on_valid_input() {
    let coin = sample_coin().unwrap();
    assert_eq!(*coin.id().value(), 1);
    assert_eq!(*coin.name().value(), "Bitcoin");
    assert_eq!(*coin.symbol().value(), "BTC");
    assert_eq!(*coin.price().value(), Some(bits(50000.0)));
    assert_eq!(*coin.volume_24h().value(), Some(bits(1e9)));
    assert_eq!(*coin.percent_change_1h().value(), Some(bits(0.5)));
    assert_eq!(*coin.percent_change_24h().value(), Some(bits(-1.2)));
    assert_eq!(*coin.percent_change_7d().value(), Some(bits(3.0)));
    assert_eq!(*coin.market_cap().value(), Some(bits(1e12)));
    assert_eq!(*coin.last_updated().value(), "2024-01-01T00:00:00.000Z");
}

#[test]
fn coin_new_fails_exactly_on_invalid_key_fields() {
    let ok = |id: u32, name: &str, symbol: &str, ts: &str| {
        Coin::new(
            id,
            name.to_string(),
            symbol.to_string(),
            bits(1.0),
            bits(1.0),
            bits(1.0),
            bits(1.0),
            bits(1.0),
            bits(1.0),
            ts.to_string(),
        )
    };
    assert_eq!(
        ok(0, "Bitcoin", "BTC", "t").unwrap_err(),
        "Coin ID must be greater than 0"
    );
    assert_eq!(
        ok(1, "", "BTC", "t").unwrap_err(),
        "Coin name must not be empty"
    );
    assert_eq!(
        ok(1, "Bitcoin", "", "t").unwrap_err(),
        "Coin symbol must not be empty"
    );
    assert_eq!(
        ok(1, "Bitcoin", "BTC", "").unwrap_err(),
        "Coin last updated must not be empty"
    );
    assert!(ok(1, "Bitcoin", "BTC", "t").is_ok());
}

#[test]
fn coin_negative_price_resolves_to_absent_not_error() {
    let coin = Coin::new(
        1,
        "Bitcoin".to_string(),
        "BTC".to_string(),
        bits(-10.0),
        bits(0.0),
        bits(0.0),
        bits(0.0),
        bits(0.0),
        bits(0.0),
        "2024-01-01T00:00:00.000Z".to_string(),
    )
    .unwrap();
    assert_eq!(*coin.price().value(), None);
}

#[test]
fn coin_display_renders_symbol_name_and_id() {
    assert_eq!(sample_coin().unwrap().display(), "BTC - Bitcoin(1)");
    let eth = Coin::new(
        1027,
        "Ethereum".to_string(),
        "ETH".to_string(),
        bits(3000.0),
        bits(0.0),
        bits(0.0),
        bits(0.0),
        bits(0.0),
        bits(0.0),
        "2024-01-01T00:00:00.000Z".to_string(),
    )
    .unwrap();
    assert_eq!(eth.display(), "ETH - Ethereum(1027)");
}

#[test]
fn setting_new_succeeds_on_non_empty_parts() {
    let setting = Setting::new("theme".to_string(), "dark".to_string()).unwrap();
    assert_eq!(*setting.key().value(), "theme");
    assert_eq!(*setting.value().value(), "dark");
}

#[test]
fn setting_new_fails_exactly_on_empty_parts() {
    match Setting::new(String::new(), "x".to_string()) {
        Err(SettingError::InvalidData(m)) => {
            assert_eq!(m, "Setting key must not be empty")
        },
        other => panic!("expected InvalidData, got {other:?}"),
    }
    match Setting::new("theme".to_string(), String::new()) {
        Err(SettingError::InvalidData(m)) => {
            assert_eq!(m, "Setting value must not be empty")
        },
        other => panic!("expected InvalidData, got {other:?}"),
    }
    assert!(Setting::new("theme".to_string(), "dark".to_string()).is_ok());
}

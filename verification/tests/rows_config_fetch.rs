//! Row flattening, configuration paths, and quote-response judgment.

use cointracker::coin::Coin;
use cointracker::config::{Config, SqtliteConfig};
use cointracker::domain::Value;
use cointracker::fetch::evaluate_quotes_response;
use cointracker::requests::{CoinResponse, CoinsResponse, SettingResponse};
use cointracker::rows::CoinSql;
use cointracker::settings::Setting;

fn bits(x: f64) -> u64 {
    x.to_bits()
}

fn sample_coin() -> Coin {
    Coin::new(
        1,
        "Bitcoin".to_string(),
        "BTC".to_string(),
        bits(50000.0),
        bits(0.0),
        bits(0.5),
        bits(-1.2),
        bits(0.0),
        bits(1e12),
        "2024-01-01T00:00:00.000Z".to_string(),
    )
    .unwrap()
}

#[test]
fn row_flattens_absent_fields_to_zero() {
    let row = CoinSql::from(sample_coin());
    assert_eq!(row.id, 1);
    assert_eq!(row.price, bits(50000.0));
    assert_eq!(row.volume_24h, 0);
    assert_eq!(row.percent_change_7d, 0);
    assert_eq!(f64::from_bits(row.volume_24h), 0.0);
}

#[test]
fn row_round_trip_is_identity_on_constructed_coins() {
    let coin = sample_coin();
    let back = CoinSql::from(coin.clone()).try_into().unwrap();
    assert_eq!(back.id().value(), coin.id().value());
    assert_eq!(back.name().value(), coin.name().value());
    assert_eq!(back.price().value(), coin.price().value());
    assert_eq!(back.volume_24h().value(), coin.volume_24h().value());
    assert_eq!(
        back.percent_change_24h().value(),
        coin.percent_change_24h().value()
    );
    assert_eq!(back.market_cap().value(), coin.market_cap().value());
}

#[test]
fn row_with_zero_id_maps_back_to_an_error() {
    let row = CoinSql {
        id: 0,
        name: "Bitcoin".to_string(),
        symbol: "BTC".to_string(),
        price: bits(1.0),
        volume_24h: 0,
        percent_change_1h: 0,
        percent_change_24h: 0,
        percent_change_7d: 0,
        market_cap: 0,
        last_updated: "t".to_string(),
    };
    assert!(row.try_into().is_err());
}

#[test]
fn responses_render_absent_fields_as_zero() {
    let response = CoinResponse::from(sample_coin());
    assert_eq!(response.id, 1);
    assert_eq!(response.price, bits(50000.0));
    assert_eq!(response.volume_24h, 0);
    assert_eq!(response.percent_change_24h, bits(-1.2));

    let batch = CoinsResponse::from(vec![sample_coin(), sample_coin()]);
    assert_eq!(batch.coins.len(), 2);
    assert_eq!(batch.coins[1].symbol, "BTC");

    let setting = Setting::new("theme".to_string(), "dark".to_string()).unwrap();
    let rendered = SettingResponse::from(setting);
    assert_eq!(rendered.key, "theme");
    assert_eq!(rendered.value, "dark");
}

#[test]
fn config_builds_the_database_path() {
    let config = Config::from("/home/user/.local/share/app".to_string());
    assert_eq!(config.app_config_dir, "/home/user/.local/share/app");
    assert_eq!(
        config.sqlite.db_path,
        "/home/user/.local/share/app/databases/data.db"
    );
    let sqlite = SqtliteConfig::from("base".to_string());
    assert_eq!(sqlite.db_path, "base/databases/data.db");
}

fn quote(id: u32) -> CoinResponse {
    CoinResponse {
        id,
        name: "Bitcoin".to_string(),
        symbol: "BTC".to_string(),
        price: bits(50000.0),
        volume_24h: bits(1e9),
        percent_change_1h: bits(0.5),
        percent_change_24h: bits(-1.2),
        percent_change_7d: bits(3.0),
        market_cap: bits(1e12),
        last_updated: "2024-01-01T00:00:00.000Z".to_string(),
    }
}

#[test]
fn quotes_response_with_error_code_keeps_the_upstream_message() {
    let r = evaluate_quotes_response(401, "API key invalid".to_string(), vec![quote(1)]);
    assert_eq!(r.unwrap_err(), "Error: API key invalid");
}

#[test]
fn quotes_response_without_data_is_an_error() {
    let r = evaluate_quotes_response(0, String::new(), vec![]);
    assert_eq!(r.unwrap_err(), "Error: No data found");
}

#[test]
fn quotes_response_with_data_hands_the_quotes_back() {
    let r = evaluate_quotes_response(0, String::new(), vec![quote(1), quote(2)]).unwrap();
    assert_eq!(r.coins.len(), 2);
    assert_eq!(r.coins[0].id, 1);
    assert_eq!(r.coins[1].id, 2);
}

//! The coins store: round trips, upsert semantics, deletion.

use cointracker::coin_table::CoinTable;
use cointracker::create_coin::{create_coin, create_coins};
use cointracker::delete_coin::{delete_all_coins, delete_coin};
use cointracker::domain::Value;
use cointracker::find_coin::{find_coin, find_coins, FindError};
use cointracker::get_all_coins::get_all_coins;
use cointracker::requests::{CoinResponse, CreateCoinRequest, CreateCoinsRequest};
use cointracker::update_coin::{update_coin, update_coins};

fn bits(x: f64) -> u64 {
    x.to_bits()
}

fn request(id: u32, name: &str, symbol: &str, price: f64) -> CreateCoinRequest {
    CreateCoinRequest {
        id,
        name: name.to_string(),
        symbol: symbol.to_string(),
        price: Some(bits(price)),
        volume_24h: Some(bits(1e9)),
        percent_change_1h: Some(bits(0.5)),
        percent_change_24h: Some(bits(-1.2)),
        percent_change_7d: Some(bits(3.0)),
        market_cap: Some(bits(1e12)),
        last_updated: "2024-01-01T00:00:00.000Z".to_string(),
    }
}

#[test]
fn create_then_find_returns_the_same_entity() {
    let mut table = CoinTable::new();
    let created = create_coin(&mut table, request(1, "Bitcoin", "BTC", 50000.0)).unwrap();
    let found = find_coin(&mut table, 1).unwrap();
    assert_eq!(found.id().value(), created.id().value());
    assert_eq!(found.name().value(), created.name().value());
    assert_eq!(found.symbol().value(), created.symbol().value());
    assert_eq!(found.price().value(), created.price().value());
    assert_eq!(found.volume_24h().value(), created.volume_24h().value());
    assert_eq!(
        found.percent_change_1h().value(),
        created.percent_change_1h().value()
    );
    assert_eq!(
        found.percent_change_24h().value(),
        created.percent_change_24h().value()
    );
    assert_eq!(
        found.percent_change_7d().value(),
        created.percent_change_7d().value()
    );
    assert_eq!(found.market_cap().value(), created.market_cap().value());
    assert_eq!(found.last_updated().value(), created.last_updated().value());
}

#[test]
fn create_twice_same_id_keeps_second_values_without_duplicating() {
    let mut table = CoinTable::new();
    create_coin(&mut table, request(1, "Bitcoin", "BTC", 50000.0)).unwrap();
    create_coin(&mut table, request(1, "Bitcoin", "BTC", 60000.0)).unwrap();
    let all = get_all_coins(&mut table).unwrap();
    assert_eq!(all.len(), 1);
    assert_eq!(*all[0].price().value(), Some(bits(60000.0)));
}

#[test]
fn find_one_on_nonexistent_id_is_not_found() {
    let mut table = CoinTable::new();
    assert!(matches!(find_coin(&mut table, 42), Err(FindError::NotFound)));
    create_coin(&mut table, request(1, "Bitcoin", "BTC", 50000.0)).unwrap();
    assert!(matches!(find_coin(&mut table, 2), Err(FindError::NotFound)));
}

#[test]
fn get_all_on_empty_table_is_an_empty_list() {
    let mut table = CoinTable::new();
    let all = get_all_coins(&mut table).unwrap();
    assert!(all.is_empty());
}

#[test]
fn delete_all_then_get_all_is_empty() {
    let mut table = CoinTable::new();
    create_coin(&mut table, request(1, "Bitcoin", "BTC", 50000.0)).unwrap();
    create_coin(&mut table, request(2, "Ethereum", "ETH", 3000.0)).unwrap();
    delete_all_coins(&mut table).unwrap();
    assert!(get_all_coins(&mut table).unwrap().is_empty());
}

#[test]
fn create_find_delete_scenario() {
    let mut table = CoinTable::new();
    let req = CreateCoinRequest {
        id: 1,
        name: "Bitcoin".to_string(),
        symbol: "BTC".to_string(),
        price: Some(bits(50000.0)),
        volume_24h: Some(bits(1e9)),
        percent_change_1h: Some(bits(0.5)),
        percent_change_24h: Some(bits(-1.2)),
        percent_change_7d: Some(bits(3.0)),
        market_cap: Some(bits(1e12)),
        last_updated: "2024-01-01T00:00:00.000Z".to_string(),
    };
    create_coin(&mut table, req).unwrap();
    let found = find_coin(&mut table, 1).unwrap();
    assert_eq!(*found.id().value(), 1);
    assert_eq!(*found.name().value(), "Bitcoin");
    assert_eq!(*found.symbol().value(), "BTC");
    assert_eq!(*found.price().value(), Some(bits(50000.0)));
    assert_eq!(*found.volume_24h().value(), Some(bits(1e9)));
    assert_eq!(*found.percent_change_1h().value(), Some(bits(0.5)));
    assert_eq!(*found.percent_change_24h().value(), Some(bits(-1.2)));
    assert_eq!(*found.percent_change_7d().value(), Some(bits(3.0)));
    assert_eq!(*found.market_cap().value(), Some(bits(1e12)));
    assert_eq!(*found.last_updated().value(), "2024-01-01T00:00:00.000Z");
    delete_coin(&mut table, 1).unwrap();
    assert!(matches!(find_coin(&mut table, 1), Err(FindError::NotFound)));
}

#[test]
fn delete_of_absent_id_succeeds_silently() {
    let mut table = CoinTable::new();
    create_coin(&mut table, request(1, "Bitcoin", "BTC", 50000.0)).unwrap();
    delete_coin(&mut table, 99).unwrap();
    assert_eq!(get_all_coins(&mut table).unwrap().len(), 1);
}

#[test]
fn find_coins_returns_at_most_one_row() {
    let mut table = CoinTable::new();
    create_coin(&mut table, request(1, "Bitcoin", "BTC", 50000.0)).unwrap();
    create_coin(&mut table, request(2, "Ethereum", "ETH", 3000.0)).unwrap();
    let hits = find_coins(&mut table, 1).unwrap();
    assert_eq!(hits.len(), 1);
    assert_eq!(*hits[0].name().value(), "Bitcoin");
    assert!(find_coins(&mut table, 3).unwrap().is_empty());
}

#[test]
fn update_overwrites_fields_and_is_silent_on_absent_id() {
    let mut table = CoinTable::new();
    create_coin(&mut table, request(1, "Bitcoin", "BTC", 50000.0)).unwrap();
    let quote = CoinResponse {
        id: 1,
        name: "Bitcoin".to_string(),
        symbol: "BTC".to_string(),
        price: bits(55000.0),
        volume_24h: bits(2e9),
        percent_change_1h: bits(0.1),
        percent_change_24h: bits(0.2),
        percent_change_7d: bits(0.3),
        market_cap: bits(1.1e12),
        last_updated: "2024-01-02T00:00:00.000Z".to_string(),
    };
    update_coin(&mut table, quote).unwrap();
    let found = find_coin(&mut table, 1).unwrap();
    assert_eq!(*found.price().value(), Some(bits(55000.0)));
    assert_eq!(*found.last_updated().value(), "2024-01-02T00:00:00.000Z");

    let absent = CoinResponse {
        id: 7,
        name: "Nobody".to_string(),
        symbol: "NON".to_string(),
        price: bits(1.0),
        volume_24h: bits(1.0),
        percent_change_1h: bits(1.0),
        percent_change_24h: bits(1.0),
        percent_change_7d: bits(1.0),
        market_cap: bits(1.0),
        last_updated: "t".to_string(),
    };
    update_coin(&mut table, absent).unwrap();
    assert_eq!(get_all_coins(&mut table).unwrap().len(), 1);
    assert!(matches!(find_coin(&mut table, 7), Err(FindError::NotFound)));
}

#[test]
fn update_with_invalid_quote_fails_with_invalid_data_and_changes_nothing() {
    let mut table = CoinTable::new();
    create_coin(&mut table, request(1, "Bitcoin", "BTC", 50000.0)).unwrap();
    let broken = CoinResponse {
        id: 0,
        name: "Bitcoin".to_string(),
        symbol: "BTC".to_string(),
        price: bits(1.0),
        volume_24h: bits(1.0),
        percent_change_1h: bits(1.0),
        percent_change_24h: bits(1.0),
        percent_change_7d: bits(1.0),
        market_cap: bits(1.0),
        last_updated: "t".to_string(),
    };
    let err = update_coin(&mut table, broken).unwrap_err();
    assert!(matches!(
        err,
        cointracker::update_coin::UpdateError::InvalidData(m)
            if m == "Coin ID must be greater than 0"
    ));
    assert_eq!(
        *find_coin(&mut table, 1).unwrap().price().value(),
        Some(bits(50000.0))
    );
}

#[test]
fn create_coins_commits_prefix_up_to_first_invalid_request() {
    let mut table = CoinTable::new();
    let batch = CreateCoinsRequest {
        coins: vec![
            request(1, "Bitcoin", "BTC", 50000.0),
            request(0, "Broken", "BRK", 1.0),
            request(2, "Ethereum", "ETH", 3000.0),
        ],
    };
    let err = create_coins(&mut table, batch).unwrap_err();
    assert!(matches!(
        err,
        cointracker::create_coin::CreateError::InvalidData(m)
            if m == "Coin ID must be greater than 0"
    ));
    let all = get_all_coins(&mut table).unwrap();
    assert_eq!(all.len(), 1);
    assert_eq!(*all[0].id().value(), 1);
}

#[test]
fn create_coins_of_valid_batch_creates_all_in_order() {
    let mut table = CoinTable::new();
    let batch = CreateCoinsRequest {
        coins: vec![
            request(1, "Bitcoin", "BTC", 50000.0),
            request(2, "Ethereum", "ETH", 3000.0),
        ],
    };
    let responses = create_coins(&mut table, batch).unwrap();
    assert_eq!(responses.len(), 2);
    assert_eq!(responses[0].id, 1);
    assert_eq!(responses[1].id, 2);
    assert_eq!(responses[1].price, bits(3000.0));
    assert_eq!(get_all_coins(&mut table).unwrap().len(), 2);
}

#[test]
fn update_coins_applies_each_quote_in_order() {
    let mut table = CoinTable::new();
    create_coin(&mut table, request(1, "Bitcoin", "BTC", 50000.0)).unwrap();
    create_coin(&mut table, request(2, "Ethereum", "ETH", 3000.0)).unwrap();
    let quotes = vec![
        CoinResponse {
            id: 1,
            name: "Bitcoin".to_string(),
            symbol: "BTC".to_string(),
            price: bits(51000.0),
            volume_24h: bits(1e9),
            percent_change_1h: bits(0.5),
            percent_change_24h: bits(-1.2),
            percent_change_7d: bits(3.0),
            market_cap: bits(1e12),
            last_updated: "2024-01-02T00:00:00.000Z".to_string(),
        },
        CoinResponse {
            id: 2,
            name: "Ethereum".to_string(),
            symbol: "ETH".to_string(),
            price: bits(3100.0),
            volume_24h: bits(1e8),
            percent_change_1h: bits(0.5),
            percent_change_24h: bits(-1.2),
            percent_change_7d: bits(3.0),
            market_cap: bits(1e11),
            last_updated: "2024-01-02T00:00:00.000Z".to_string(),
        },
    ];
    let responses = update_coins(&mut table, quotes).unwrap();
    assert_eq!(responses.len(), 2);
    assert_eq!(*find_coin(&mut table, 1).unwrap().price().value(), Some(bits(51000.0)));
    assert_eq!(*find_coin(&mut table, 2).unwrap().price().value(), Some(bits(3100.0)));
}

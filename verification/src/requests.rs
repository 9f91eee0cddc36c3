//! Inbound request and outbound response shapes of the command surface.
//!
//! These are plain carriers: validation happens in the value types when an
//! entity is built. Numeric fields hold IEEE 754 double bit patterns; in a
//! response an absent field is flattened to the zero pattern, mirroring how
//! rows are persisted.

use vstd::prelude::*;

use crate::coin::{Coin, CoinV};
use crate::domain::Value;
use crate::numeric::flatten_absent;
use crate::settings::Setting;

verus! {

/// Request to create one coin; optional numeric fields default to zero.
#[derive(Debug)]
pub struct CreateCoinRequest {
    pub id: u32,
    pub name: String,
    pub symbol: String,
    pub price: Option<u64>,
    pub volume_24h: Option<u64>,
    pub percent_change_1h: Option<u64>,
    pub percent_change_24h: Option<u64>,
    pub percent_change_7d: Option<u64>,
    pub market_cap: Option<u64>,
    pub last_updated: String,
}

/// Request to create a batch of coins in order.
#[derive(Debug)]
pub struct CreateCoinsRequest {
    pub coins: Vec<CreateCoinRequest>,
}

/// Request to refresh the quoted coins with the given identifiers.
#[derive(Debug)]
pub struct UpdateCoinsRequest {
    pub ids: Vec<u32>,
}

/// Request to look one coin up by identifier.
#[derive(Debug)]
pub struct FindCoinRequest {
    pub id: u32,
}

/// Request to delete one coin by identifier.
#[derive(Debug)]
pub struct DeleteCoinRequest {
    pub id: u32,
}

/// Request to fetch quotes for the given identifiers.
#[derive(Debug)]
pub struct FetchCoinsByIdRequest {
    pub ids: Vec<u32>,
}

/// Request to fetch quotes for the given ticker symbols.
#[derive(Debug)]
pub struct FetchCoinsBySymbolRequest {
    pub symbols: Vec<String>,
}

/// Mathematical image of a `CoinResponse`.
#[verifier::ext_equal]
pub ghost struct CoinResponseV {
    pub id: u32,
    pub name: Seq<char>,
    pub symbol: Seq<char>,
    pub price: u64,
    pub volume_24h: u64,
    pub percent_change_1h: u64,
    pub percent_change_24h: u64,
    pub percent_change_7d: u64,
    pub market_cap: u64,
    pub last_updated: Seq<char>,
}

/// One coin as handed back to the caller or received from the market-data
/// collaborator; absent numeric fields appear as the zero pattern.
#[derive(Debug)]
pub struct CoinResponse {
    pub id: u32,
    pub name: String,
    pub symbol: String,
    pub price: u64,
    pub volume_24h: u64,
    pub percent_change_1h: u64,
    pub percent_change_24h: u64,
    pub percent_change_7d: u64,
    pub market_cap: u64,
    pub last_updated: String,
}

impl View for CoinResponse {
    type V = CoinResponseV;

    open spec fn view(&self) -> CoinResponseV {
        CoinResponseV {
            id: self.id,
            name: self.name@,
            symbol: self.symbol@,
            price: self.price,
            volume_24h: self.volume_24h,
            percent_change_1h: self.percent_change_1h,
            percent_change_24h: self.percent_change_24h,
            percent_change_7d: self.percent_change_7d,
            market_cap: self.market_cap,
            last_updated: self.last_updated@,
        }
    }
}

/// The response image of a coin: every absent field flattened to zero.
pub open spec fn response_of(c: CoinV) -> CoinResponseV {
    CoinResponseV {
        id: c.id,
        name: c.name,
        symbol: c.symbol,
        price: flatten_absent(c.price),
        volume_24h: flatten_absent(c.volume_24h),
        percent_change_1h: flatten_absent(c.percent_change_1h),
        percent_change_24h: flatten_absent(c.percent_change_24h),
        percent_change_7d: flatten_absent(c.percent_change_7d),
        market_cap: flatten_absent(c.market_cap),
        last_updated: c.last_updated,
    }
}

impl CoinResponse {
    /// Renders a coin for the caller, flattening absent fields to zero.
    pub fn from(coin: Coin) -> (r: CoinResponse)
        ensures
            r@ == response_of(coin@),
    {
        CoinResponse {
            id: *coin.id().value(),
            name: coin.name().value().clone(),
            symbol: coin.symbol().value().clone(),
            price: (*coin.price().value()).unwrap_or(0),
            volume_24h: (*coin.volume_24h().value()).unwrap_or(0),
            percent_change_1h: (*coin.percent_change_1h().value()).unwrap_or(0),
            percent_change_24h: (*coin.percent_change_24h().value()).unwrap_or(0),
            percent_change_7d: (*coin.percent_change_7d().value()).unwrap_or(0),
            market_cap: (*coin.market_cap().value()).unwrap_or(0),
            last_updated: coin.last_updated().value().clone(),
        }
    }
}

/// A batch of coin responses.
#[derive(Debug)]
pub struct CoinsResponse {
    pub coins: Vec<CoinResponse>,
}

impl CoinsResponse {
    /// Renders a batch of coins in order.
    pub fn from(coins: Vec<Coin>) -> (r: CoinsResponse)
        ensures
            r.coins@.len() == coins@.len(),
            forall|i: int| 0 <= i < coins@.len()
                ==> #[trigger] r.coins@[i]@ == response_of(coins@[i]@),
    {
        let mut out: Vec<CoinResponse> = Vec::new();
        let mut coins = coins;
        let ghost orig = coins@;
        while coins.len() > 0
            invariant
                out@.len() + coins@.len() == orig.len(),
                forall|i: int| 0 <= i < out@.len()
                    ==> #[trigger] out@[i]@ == response_of(orig[i]@),
                forall|i: int| 0 <= i < coins@.len()
                    ==> coins@[i] == orig[out@.len() + i],
            decreases coins@.len(),
        {
            let coin = coins.remove(0);
            out.push(CoinResponse::from(coin));
        }
        CoinsResponse { coins: out }
    }
}

/// Request to create or overwrite one setting.
#[derive(Debug)]
pub struct CreateSettingRequest {
    pub key: String,
    pub value: String,
}

/// A setting as handed back to the caller.
#[derive(Debug)]
pub struct SettingResponse {
    pub key: String,
    pub value: String,
}

impl SettingResponse {
    /// Renders a setting for the caller.
    pub fn from(setting: Setting) -> (r: SettingResponse)
        ensures
            r.key@ == setting@.key,
            r.value@ == setting@.value,
    {
        SettingResponse {
            key: setting.key().value().clone(),
            value: setting.value().value().clone(),
        }
    }
}

} // verus!

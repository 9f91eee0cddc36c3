//! The flat row shape in which a coin is persisted.
//!
//! The `coins` table stores every numeric column as a raw double pattern
//! with "absent" flattened to zero. Reading a row back re-sanitizes each
//! column, and for any coin the library can construct, that round trip is
//! the identity: flattening loses nothing, because a constructed coin
//! never holds a zero, NaN, infinite or otherwise rejected pattern.

use vstd::prelude::*;

use crate::coin::{coin_valid, Coin, CoinV};
use crate::domain::Value;
use crate::numeric::{flatten_absent, sanitize_amount, sanitize_percent};

verus! {

/// Mathematical image of a `CoinSql` row.
#[verifier::ext_equal]
pub ghost struct CoinSqlV {
    pub id: u32,
    pub name: Seq<char>,
    pub symbol: Seq<char>,
    pub price: u64,
    pub volume_24h: u64,
    pub percent_change_1h: u64,
    pub percent_change_24h: u64,
    pub percent_change_7d: u64,
    pub market_cap: u64,
    pub last_updated: Seq<char>,
}

/// One row of the `coins` table, column for column.
#[derive(Debug)]
pub struct CoinSql {
    pub id: u32,
    pub name: String,
    pub symbol: String,
    pub price: u64,
    pub volume_24h: u64,
    pub percent_change_1h: u64,
    pub percent_change_24h: u64,
    pub percent_change_7d: u64,
    pub market_cap: u64,
    pub last_updated: String,
}

impl View for CoinSql {
    type V = CoinSqlV;

    open spec fn view(&self) -> CoinSqlV {
        CoinSqlV {
            id: self.id,
            name: self.name@,
            symbol: self.symbol@,
            price: self.price,
            volume_24h: self.volume_24h,
            percent_change_1h: self.percent_change_1h,
            percent_change_24h: self.percent_change_24h,
            percent_change_7d: self.percent_change_7d,
            market_cap: self.market_cap,
            last_updated: self.last_updated@,
        }
    }
}

/// The row a coin is stored as: absent fields flattened to zero.
pub open spec fn row_of_coin(c: CoinV) -> CoinSqlV {
    CoinSqlV {
        id: c.id,
        name: c.name,
        symbol: c.symbol,
        price: flatten_absent(c.price),
        volume_24h: flatten_absent(c.volume_24h),
        percent_change_1h: flatten_absent(c.percent_change_1h),
        percent_change_24h: flatten_absent(c.percent_change_24h),
        percent_change_7d: flatten_absent(c.percent_change_7d),
        market_cap: flatten_absent(c.market_cap),
        last_updated: c.last_updated,
    }
}

/// The coin a row maps back to: every numeric column re-sanitized.
pub open spec fn coin_of_row(row: CoinSqlV) -> CoinV {
    CoinV {
        id: row.id,
        name: row.name,
        symbol: row.symbol,
        price: sanitize_amount(row.price),
        volume_24h: sanitize_amount(row.volume_24h),
        percent_change_1h: sanitize_percent(row.percent_change_1h),
        percent_change_24h: sanitize_percent(row.percent_change_24h),
        percent_change_7d: sanitize_percent(row.percent_change_7d),
        market_cap: sanitize_amount(row.market_cap),
        last_updated: row.last_updated,
    }
}

/// Persisting a constructed coin and reading it back yields the same
/// entity, field for field: the absent/zero flattening is lossless on
/// values the value types can produce.
pub proof fn lemma_row_round_trip(c: CoinV)
    requires
        coin_valid(c),
    ensures
        coin_of_row(row_of_coin(c)) == c,
{
    crate::numeric::lemma_zero_pattern_absent();
    assert(coin_of_row(row_of_coin(c)) =~= c);
}

impl CoinSql {
    /// Flattens a coin into its row, absent numeric fields becoming zero.
    pub fn from(coin: Coin) -> (r: CoinSql)
        ensures
            r@ == row_of_coin(coin@),
    {
        CoinSql {
            id: *coin.id().value(),
            name: coin.name().value().clone(),
            symbol: coin.symbol().value().clone(),
            price: (*coin.price().value()).unwrap_or(0),
            volume_24h: (*coin.volume_24h().value()).unwrap_or(0),
            percent_change_1h: (*coin.percent_change_1h().value()).unwrap_or(0),
            percent_change_24h: (*coin.percent_change_24h().value()).unwrap_or(0),
            percent_change_7d: (*coin.percent_change_7d().value()).unwrap_or(0),
            market_cap: (*coin.market_cap().value()).unwrap_or(0),
            last_updated: coin.last_updated().value().clone(),
        }
    }

    /// Maps a row back to a validated coin, re-sanitizing each numeric
    /// column. Fails exactly when the row violates the entity invariant
    /// (zero identifier, or an empty name, symbol or timestamp).
    pub fn try_into(self) -> (r: Result<Coin, &'static str>)
        ensures
            r is Ok <==> (self.id > 0 && self.name@.len() > 0 && self.symbol@.len() > 0
                && self.last_updated@.len() > 0),
            r matches Ok(c) ==> c@ == coin_of_row(self@),
    {
        Coin::new(
            self.id,
            self.name,
            self.symbol,
            self.price,
            self.volume_24h,
            self.percent_change_1h,
            self.percent_change_24h,
            self.percent_change_7d,
            self.market_cap,
            self.last_updated,
        )
    }
}

} // verus!

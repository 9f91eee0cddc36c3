//! The `Coin` entity and its value types.
//!
//! A coin is a snapshot of one cryptocurrency's market data. Its identifier,
//! name, symbol and timestamp are validated at construction; its numeric
//! fields carry IEEE 754 double bit patterns and are sanitized rather than
//! rejected: zero, NaN, infinite (and, for the non-negative amounts,
//! negative) patterns collapse to "absent".

use vstd::prelude::*;

use crate::domain::{Entity, Value};
use crate::numeric::{
    dec_digits, infinite_bits, nan_bits, negative_bits, sanitize_amount, sanitize_percent,
    u32_to_decimal, zero_bits,
};
use vstd::string::StringExecFns;

verus! {

/// Positive numeric identifier of a coin.
#[derive(Debug, PartialEq, Eq)]
pub struct CoinId(pub(crate) u32);

impl View for CoinId {
    type V = u32;

    closed spec fn view(&self) -> u32 {
        self.0
    }
}

impl Value for CoinId {
    type ValueType = u32;

    fn value(&self) -> (r: &u32)
        ensures
            *r == self@,
    {
        &self.0
    }
}

impl Clone for CoinId {
    fn clone(&self) -> (r: Self)
        ensures
            r == *self,
    {
        CoinId(self.0)
    }
}

impl CoinId {
    /// Accepts exactly the identifiers greater than zero.
    pub fn try_from(value: u32) -> (r: Result<CoinId, &'static str>)
        ensures
            value > 0 <==> r is Ok,
            r matches Ok(id) ==> id@ == value,
            r matches Err(m) ==> m@ == "Coin ID must be greater than 0"@,
    {
        if value > 0 {
            Ok(CoinId(value))
        } else {
            Err("Coin ID must be greater than 0")
        }
    }
}

/// Non-empty display name of a coin.
#[derive(Debug, PartialEq, Eq)]
pub struct CoinName(pub(crate) String);

impl View for CoinName {
    type V = Seq<char>;

    closed spec fn view(&self) -> Seq<char> {
        self.0@
    }
}

impl Value for CoinName {
    type ValueType = String;

    fn value(&self) -> (r: &String)
        ensures
            r@ == self@,
    {
        &self.0
    }
}

impl Clone for CoinName {
    fn clone(&self) -> (r: Self)
        ensures
            r == *self,
    {
        CoinName(self.0.clone())
    }
}

impl CoinName {
    /// Accepts exactly the non-empty names.
    pub fn try_from(value: String) -> (r: Result<CoinName, &'static str>)
        ensures
            value@.len() > 0 <==> r is Ok,
            r matches Ok(name) ==> name@ == value@,
            r matches Err(m) ==> m@ == "Coin name must not be empty"@,
    {
        if value.as_str().is_empty() {
            Err("Coin name must not be empty")
        } else {
            Ok(CoinName(value))
        }
    }
}

/// Non-empty ticker symbol of a coin.
#[derive(Debug, PartialEq, Eq)]
pub struct CoinSymbol(pub(crate) String);

impl View for CoinSymbol {
    type V = Seq<char>;

    closed spec fn view(&self) -> Seq<char> {
        self.0@
    }
}

impl Value for CoinSymbol {
    type ValueType = String;

    fn value(&self) -> (r: &String)
        ensures
            r@ == self@,
    {
        &self.0
    }
}

impl Clone for CoinSymbol {
    fn clone(&self) -> (r: Self)
        ensures
            r == *self,
    {
        CoinSymbol(self.0.clone())
    }
}

impl CoinSymbol {
    /// Accepts exactly the non-empty symbols.
    pub fn try_from(value: String) -> (r: Result<CoinSymbol, &'static str>)
        ensures
            value@.len() > 0 <==> r is Ok,
            r matches Ok(symbol) ==> symbol@ == value@,
            r matches Err(m) ==> m@ == "Coin symbol must not be empty"@,
    {
        if value.as_str().is_empty() {
            Err("Coin symbol must not be empty")
        } else {
            Ok(CoinSymbol(value))
        }
    }
}

/// Optional price in US dollars, held as a double bit pattern.
#[derive(Debug, Clone, Copy)]
pub struct CoinPrice(pub(crate) Option<u64>);

impl View for CoinPrice {
    type V = Option<u64>;

    closed spec fn view(&self) -> Option<u64> {
        self.0
    }
}

impl Value for CoinPrice {
    type ValueType = Option<u64>;

    fn value(&self) -> (r: &Option<u64>)
        ensures
            *r == self@,
    {
        &self.0
    }
}

impl CoinPrice {
    /// Never fails: zero, NaN, infinite and negative collapse to absent,
    /// every positive finite pattern is kept unchanged.
    pub fn try_from(value: u64) -> (r: Result<CoinPrice, &'static str>)
        ensures
            r matches Ok(p) && p@ == sanitize_amount(value),
    {
        if zero_bits(value) || nan_bits(value) || infinite_bits(value) || negative_bits(value) {
            Ok(CoinPrice(None))
        } else {
            Ok(CoinPrice(Some(value)))
        }
    }
}

/// Optional 24-hour trading volume, held as a double bit pattern.
#[derive(Debug, Clone, Copy)]
pub struct CoinVolume24h(pub(crate) Option<u64>);

impl View for CoinVolume24h {
    type V = Option<u64>;

    closed spec fn view(&self) -> Option<u64> {
        self.0
    }
}

impl Value for CoinVolume24h {
    type ValueType = Option<u64>;

    fn value(&self) -> (r: &Option<u64>)
        ensures
            *r == self@,
    {
        &self.0
    }
}

impl CoinVolume24h {
    /// Never fails: zero, NaN, infinite and negative collapse to absent.
    pub fn try_from(value: u64) -> (r: Result<CoinVolume24h, &'static str>)
        ensures
            r matches Ok(v) && v@ == sanitize_amount(value),
    {
        if zero_bits(value) || nan_bits(value) || infinite_bits(value) || negative_bits(value) {
            Ok(CoinVolume24h(None))
        } else {
            Ok(CoinVolume24h(Some(value)))
        }
    }
}

/// Optional one-hour percent change, held as a double bit pattern.
#[derive(Debug, Clone, Copy)]
pub struct CoinPercentChange1h(pub(crate) Option<u64>);

impl View for CoinPercentChange1h {
    type V = Option<u64>;

    closed spec fn view(&self) -> Option<u64> {
        self.0
    }
}

impl Value for CoinPercentChange1h {
    type ValueType = Option<u64>;

    fn value(&self) -> (r: &Option<u64>)
        ensures
            *r == self@,
    {
        &self.0
    }
}

impl CoinPercentChange1h {
    /// Never fails: zero, NaN and infinite collapse to absent; negative
    /// finite values are kept.
    pub fn try_from(value: u64) -> (r: Result<CoinPercentChange1h, &'static str>)
        ensures
            r matches Ok(p) && p@ == sanitize_percent(value),
    {
        if zero_bits(value) || nan_bits(value) || infinite_bits(value) {
            Ok(CoinPercentChange1h(None))
        } else {
            Ok(CoinPercentChange1h(Some(value)))
        }
    }
}

/// Optional 24-hour percent change, held as a double bit pattern.
#[derive(Debug, Clone, Copy)]
pub struct CoinPercentChange24h(pub(crate) Option<u64>);

impl View for CoinPercentChange24h {
    type V = Option<u64>;

    closed spec fn view(&self) -> Option<u64> {
        self.0
    }
}

impl Value for CoinPercentChange24h {
    type ValueType = Option<u64>;

    fn value(&self) -> (r: &Option<u64>)
        ensures
            *r == self@,
    {
        &self.0
    }
}

impl CoinPercentChange24h {
    /// Never fails: zero, NaN and infinite collapse to absent; negative
    /// finite values are kept.
    pub fn try_from(value: u64) -> (r: Result<CoinPercentChange24h, &'static str>)
        ensures
            r matches Ok(p) && p@ == sanitize_percent(value),
    {
        if zero_bits(value) || nan_bits(value) || infinite_bits(value) {
            Ok(CoinPercentChange24h(None))
        } else {
            Ok(CoinPercentChange24h(Some(value)))
        }
    }
}

/// Optional seven-day percent change, held as a double bit pattern.
#[derive(Debug, Clone, Copy)]
pub struct CoinPercentChange7d(pub(crate) Option<u64>);

impl View for CoinPercentChange7d {
    type V = Option<u64>;

    closed spec fn view(&self) -> Option<u64> {
        self.0
    }
}

impl Value for CoinPercentChange7d {
    type ValueType = Option<u64>;

    fn value(&self) -> (r: &Option<u64>)
        ensures
            *r == self@,
    {
        &self.0
    }
}

impl CoinPercentChange7d {
    /// Never fails: zero, NaN and infinite collapse to absent; negative
    /// finite values are kept.
    pub fn try_from(value: u64) -> (r: Result<CoinPercentChange7d, &'static str>)
        ensures
            r matches Ok(p) && p@ == sanitize_percent(value),
    {
        if zero_bits(value) || nan_bits(value) || infinite_bits(value) {
            Ok(CoinPercentChange7d(None))
        } else {
            Ok(CoinPercentChange7d(Some(value)))
        }
    }
}

/// Optional market capitalization, held as a double bit pattern.
#[derive(Debug, Clone, Copy)]
pub struct CoinMarketCap(pub(crate) Option<u64>);

impl View for CoinMarketCap {
    type V = Option<u64>;

    closed spec fn view(&self) -> Option<u64> {
        self.0
    }
}

impl Value for CoinMarketCap {
    type ValueType = Option<u64>;

    fn value(&self) -> (r: &Option<u64>)
        ensures
            *r == self@,
    {
        &self.0
    }
}

impl CoinMarketCap {
    /// Never fails: zero, NaN, infinite and negative collapse to absent.
    pub fn try_from(value: u64) -> (r: Result<CoinMarketCap, &'static str>)
        ensures
            r matches Ok(m) && m@ == sanitize_amount(value),
    {
        if zero_bits(value) || nan_bits(value) || infinite_bits(value) || negative_bits(value) {
            Ok(CoinMarketCap(None))
        } else {
            Ok(CoinMarketCap(Some(value)))
        }
    }
}

/// Non-empty timestamp string; its format is opaque to this core.
#[derive(Debug, PartialEq, Eq)]
pub struct CoinLastUpdated(pub(crate) String);

impl View for CoinLastUpdated {
    type V = Seq<char>;

    closed spec fn view(&self) -> Seq<char> {
        self.0@
    }
}

impl Value for CoinLastUpdated {
    type ValueType = String;

    fn value(&self) -> (r: &String)
        ensures
            r@ == self@,
    {
        &self.0
    }
}

impl Clone for CoinLastUpdated {
    fn clone(&self) -> (r: Self)
        ensures
            r == *self,
    {
        CoinLastUpdated(self.0.clone())
    }
}

impl CoinLastUpdated {
    /// Accepts exactly the non-empty timestamps.
    pub fn try_from(value: String) -> (r: Result<CoinLastUpdated, &'static str>)
        ensures
            value@.len() > 0 <==> r is Ok,
            r matches Ok(t) ==> t@ == value@,
            r matches Err(m) ==> m@ == "Coin last updated must not be empty"@,
    {
        if value.as_str().is_empty() {
            Err("Coin last updated must not be empty")
        } else {
            Ok(CoinLastUpdated(value))
        }
    }
}

/// Mathematical image of a `Coin`: every field reduced to a plain value.
#[verifier::ext_equal]
pub ghost struct CoinV {
    pub id: u32,
    pub name: Seq<char>,
    pub symbol: Seq<char>,
    pub price: Option<u64>,
    pub volume_24h: Option<u64>,
    pub percent_change_1h: Option<u64>,
    pub percent_change_24h: Option<u64>,
    pub percent_change_7d: Option<u64>,
    pub market_cap: Option<u64>,
    pub last_updated: Seq<char>,
}

/// A sanitized amount holds no pattern that sanitization would reject.
pub open spec fn amount_ok(value: Option<u64>) -> bool {
    match value {
        Some(bits) => sanitize_amount(bits) == Some(bits),
        None => true,
    }
}

/// A sanitized percent change holds no pattern that sanitization would
/// reject.
pub open spec fn percent_ok(value: Option<u64>) -> bool {
    match value {
        Some(bits) => sanitize_percent(bits) == Some(bits),
        None => true,
    }
}

/// The invariant every constructed coin satisfies: a positive identifier,
/// non-empty name, symbol and timestamp, and numeric fields that are
/// absent or positive finite (percent changes: finite and nonzero).
pub open spec fn coin_valid(c: CoinV) -> bool {
    c.id > 0 && c.name.len() > 0 && c.symbol.len() > 0 && c.last_updated.len() > 0
        && amount_ok(c.price) && amount_ok(c.volume_24h) && amount_ok(c.market_cap)
        && percent_ok(c.percent_change_1h) && percent_ok(c.percent_change_24h)
        && percent_ok(c.percent_change_7d)
}

/// The message with which coin construction fails, given the raw parts:
/// the identifier is checked first, then the name, the symbol, and last
/// the timestamp.
pub open spec fn invalid_coin_message(
    id: u32,
    name: Seq<char>,
    symbol: Seq<char>,
    last_updated: Seq<char>,
) -> Seq<char> {
    if id == 0 {
        "Coin ID must be greater than 0"@
    } else if name.len() == 0 {
        "Coin name must not be empty"@
    } else if symbol.len() == 0 {
        "Coin symbol must not be empty"@
    } else {
        "Coin last updated must not be empty"@
    }
}

/// A snapshot of one cryptocurrency's market data.
#[derive(Debug)]
pub struct Coin {
    id: CoinId,
    name: CoinName,
    symbol: CoinSymbol,
    price: CoinPrice,
    volume_24h: CoinVolume24h,
    percent_change_1h: CoinPercentChange1h,
    percent_change_24h: CoinPercentChange24h,
    percent_change_7d: CoinPercentChange7d,
    market_cap: CoinMarketCap,
    last_updated: CoinLastUpdated,
}

impl Entity for Coin {}

impl View for Coin {
    type V = CoinV;

    closed spec fn view(&self) -> CoinV {
        CoinV {
            id: self.id@,
            name: self.name@,
            symbol: self.symbol@,
            price: self.price@,
            volume_24h: self.volume_24h@,
            percent_change_1h: self.percent_change_1h@,
            percent_change_24h: self.percent_change_24h@,
            percent_change_7d: self.percent_change_7d@,
            market_cap: self.market_cap@,
            last_updated: self.last_updated@,
        }
    }
}

impl Clone for Coin {
    fn clone(&self) -> (r: Self)
        ensures
            r == *self,
    {
        Coin {
            id: self.id.clone(),
            name: self.name.clone(),
            symbol: self.symbol.clone(),
            price: self.price,
            volume_24h: self.volume_24h,
            percent_change_1h: self.percent_change_1h,
            percent_change_24h: self.percent_change_24h,
            percent_change_7d: self.percent_change_7d,
            market_cap: self.market_cap,
            last_updated: self.last_updated.clone(),
        }
    }
}

impl Coin {
    /// Builds a coin from raw field values. Fails exactly when the
    /// identifier is zero or the name, symbol or timestamp is empty; the
    /// numeric fields are sanitized, never rejected.
    pub fn new(
        id: u32,
        name: String,
        symbol: String,
        price: u64,
        volume_24h: u64,
        percent_change_1h: u64,
        percent_change_24h: u64,
        percent_change_7d: u64,
        market_cap: u64,
        last_updated: String,
    ) -> (r: Result<Coin, &'static str>)
        ensures
            r is Ok <==> (id > 0 && name@.len() > 0 && symbol@.len() > 0
                && last_updated@.len() > 0),
            r matches Ok(c) ==> c@ == (CoinV {
                id,
                name: name@,
                symbol: symbol@,
                price: sanitize_amount(price),
                volume_24h: sanitize_amount(volume_24h),
                percent_change_1h: sanitize_percent(percent_change_1h),
                percent_change_24h: sanitize_percent(percent_change_24h),
                percent_change_7d: sanitize_percent(percent_change_7d),
                market_cap: sanitize_amount(market_cap),
                last_updated: last_updated@,
            }),
            r matches Ok(c) ==> coin_valid(c@),
            r matches Err(m) ==> m@ == invalid_coin_message(id, name@, symbol@,
                last_updated@),
    {
        let id = match CoinId::try_from(id) {
            Ok(v) => v,
            Err(e) => {
                return Err(e);
            },
        };
        let name = match CoinName::try_from(name) {
            Ok(v) => v,
            Err(e) => {
                return Err(e);
            },
        };
        let symbol = match CoinSymbol::try_from(symbol) {
            Ok(v) => v,
            Err(e) => {
                return Err(e);
            },
        };
        let price = match CoinPrice::try_from(price) {
            Ok(v) => v,
            Err(e) => {
                return Err(e);
            },
        };
        let volume_24h = match CoinVolume24h::try_from(volume_24h) {
            Ok(v) => v,
            Err(e) => {
                return Err(e);
            },
        };
        let percent_change_1h = match CoinPercentChange1h::try_from(percent_change_1h) {
            Ok(v) => v,
            Err(e) => {
                return Err(e);
            },
        };
        let percent_change_24h = match CoinPercentChange24h::try_from(percent_change_24h) {
            Ok(v) => v,
            Err(e) => {
                return Err(e);
            },
        };
        let percent_change_7d = match CoinPercentChange7d::try_from(percent_change_7d) {
            Ok(v) => v,
            Err(e) => {
                return Err(e);
            },
        };
        let market_cap = match CoinMarketCap::try_from(market_cap) {
            Ok(v) => v,
            Err(e) => {
                return Err(e);
            },
        };
        let last_updated = match CoinLastUpdated::try_from(last_updated) {
            Ok(v) => v,
            Err(e) => {
                return Err(e);
            },
        };
        Ok(Coin {
            id,
            name,
            symbol,
            price,
            volume_24h,
            percent_change_1h,
            percent_change_24h,
            percent_change_7d,
            market_cap,
            last_updated,
        })
    }

    pub fn id(&self) -> (r: &CoinId)
        ensures
            r@ == self@.id,
    {
        &self.id
    }

    pub fn name(&self) -> (r: &CoinName)
        ensures
            r@ == self@.name,
    {
        &self.name
    }

    pub fn symbol(&self) -> (r: &CoinSymbol)
        ensures
            r@ == self@.symbol,
    {
        &self.symbol
    }

    pub fn price(&self) -> (r: &CoinPrice)
        ensures
            r@ == self@.price,
    {
        &self.price
    }

    pub fn volume_24h(&self) -> (r: &CoinVolume24h)
        ensures
            r@ == self@.volume_24h,
    {
        &self.volume_24h
    }

    pub fn percent_change_1h(&self) -> (r: &CoinPercentChange1h)
        ensures
            r@ == self@.percent_change_1h,
    {
        &self.percent_change_1h
    }

    pub fn percent_change_24h(&self) -> (r: &CoinPercentChange24h)
        ensures
            r@ == self@.percent_change_24h,
    {
        &self.percent_change_24h
    }

    pub fn percent_change_7d(&self) -> (r: &CoinPercentChange7d)
        ensures
            r@ == self@.percent_change_7d,
    {
        &self.percent_change_7d
    }

    pub fn market_cap(&self) -> (r: &CoinMarketCap)
        ensures
            r@ == self@.market_cap,
    {
        &self.market_cap
    }

    pub fn last_updated(&self) -> (r: &CoinLastUpdated)
        ensures
            r@ == self@.last_updated,
    {
        &self.last_updated
    }

    /// The coin's one-line rendering: symbol, name, identifier.
    pub fn display(&self) -> (r: String)
        ensures
            r@ == self@.symbol + " - "@ + self@.name + "("@
                + dec_digits(self@.id as nat) + ")"@,
    {
        let id_text = u32_to_decimal(self.id.0);
        self.symbol.0.clone().concat(" - ").concat(self.name.0.as_str()).concat("(").concat(
            id_text.as_str(),
        ).concat(")")
    }
}

} // verus!

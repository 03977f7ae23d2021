//! Core of a unifying layer over cryptocurrency exchange APIs: canonical
//! domain types, the symbol/base pair parser, per-exchange normalization of
//! raw response values, and the exchange identity model.
//!
//! All network transport stays outside this crate; every function here maps
//! plain values (already fetched from an exchange) to domain values, under a
//! proved contract.
use vstd::prelude::*;

pub mod decimal;
pub mod error;
pub mod exchanges;
pub mod models;
pub mod parser;
pub mod socket;

verus! {

/// Ticker symbols commonly used by exchanges for USD-pegged stablecoins.
pub fn known_stablecoin_symbols() -> (r: Vec<String>)
    ensures
        r.deep_view() =~= seq!["USDT"@, "USD"@, "TUSD"@],
{
    let mut v: Vec<String> = Vec::new();
    v.push("USDT".to_owned());
    v.push("USD".to_owned());
    v.push("TUSD".to_owned());
    proof {
        assert(v.deep_view() =~= seq!["USDT"@, "USD"@, "TUSD"@]);
    }
    v
}

/// Ticker symbols commonly used by exchanges for bitcoin.
pub fn known_btc_symbols() -> (r: Vec<String>)
    ensures
        r.deep_view() =~= seq!["XBT"@, "BTC"@],
{
    let mut v: Vec<String> = Vec::new();
    v.push("XBT".to_owned());
    v.push("BTC".to_owned());
    proof {
        assert(v.deep_view() =~= seq!["XBT"@, "BTC"@]);
    }
    v
}

} // verus!

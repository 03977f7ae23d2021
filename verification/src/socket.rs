//! The decision side of the streaming listener: channel naming for a
//! subscription and normalization of a raw trade tick into the event pushed
//! outward. The blocking socket loop itself lives with the application.
use vstd::prelude::*;

use crate::decimal::Decimal;

verus! {

/// A normalized event a streaming listener hands outward.
#[derive(Debug, Clone, PartialEq)]
pub enum Event {
    /// Symbol, last price and quantity of an aggregated trade tick.
    PriceChange(String, Decimal, Decimal),
}

/// The aggregated-trade channel name for one trading symbol.
pub fn agg_trade_channel(symbol: &str) -> (r: String)
    ensures
        r@ == symbol@ + "@aggTrade"@,
{
    symbol.to_owned().concat("@aggTrade")
}

/// Normalize one raw aggregated-trade tick into the event the listener
/// dispatches.
pub fn price_change_event(symbol: String, price: Decimal, qty: Decimal) -> (r: Event)
    ensures
        r matches Event::PriceChange(s, p, q) && s@ == symbol@ && p@ == price@ && q@ == qty@,
{
    Event::PriceChange(symbol, price, qty)
}

} // verus!

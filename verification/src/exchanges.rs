//! The exchange identity tag and the capability contract every exchange
//! adapter satisfies.
pub mod binance;

use vstd::prelude::*;

use crate::decimal::Decimal;
use crate::error::TrailerError;
use crate::models::{Asset, Candlestick, Order, Pair, Trade, spec_find_pair,
    find_pair_by_symbol_and_base, str_eq};

verus! {

/// Which exchange a value originated from or targets.
#[derive(Debug, Clone, Copy, PartialEq, Eq, Structural)]
pub enum Exchange {
    Unknown,
    Bittrex,
    Binance,
    Kucoin,
}

/// The identity a configured name denotes. `"kucoin"` deliberately maps to
/// `Binance`: the original mapping is kept as a compatibility quirk.
pub open spec fn spec_exchange_from_str(s: Seq<char>) -> Option<Exchange> {
    if s == "unknown"@ || s == "-"@ {
        Some(Exchange::Unknown)
    } else if s == "bittrex"@ {
        Some(Exchange::Bittrex)
    } else if s == "binance"@ {
        Some(Exchange::Binance)
    } else if s == "kucoin"@ {
        Some(Exchange::Binance)
    } else {
        None
    }
}

/// The canonical name of each identity; `Unknown` prints as `"-"`.
pub open spec fn spec_exchange_name(e: Exchange) -> Seq<char> {
    match e {
        Exchange::Bittrex => "bittrex"@,
        Exchange::Binance => "binance"@,
        Exchange::Kucoin => "kucoin"@,
        Exchange::Unknown => "-"@,
    }
}

impl Exchange {
    /// Parse a configured exchange name, case-sensitively.
    pub fn from_str(s: &str) -> (r: Result<Exchange, ()>)
        ensures
            (r is Ok) <==> (spec_exchange_from_str(s@) is Some),
            r matches Ok(e) ==> spec_exchange_from_str(s@) == Some(e),
    {
        if str_eq(s, "unknown") || str_eq(s, "-") {
            Ok(Exchange::Unknown)
        } else if str_eq(s, "bittrex") {
            Ok(Exchange::Bittrex)
        } else if str_eq(s, "binance") {
            Ok(Exchange::Binance)
        } else if str_eq(s, "kucoin") {
            Ok(Exchange::Binance)
        } else {
            Err(())
        }
    }

    /// The canonical name of this identity.
    pub fn to_string(&self) -> (r: String)
        ensures
            r@ == spec_exchange_name(*self),
    {
        match self {
            Exchange::Bittrex => "bittrex".to_owned(),
            Exchange::Binance => "binance".to_owned(),
            Exchange::Kucoin => "kucoin".to_owned(),
            Exchange::Unknown => "-".to_owned(),
        }
    }
}

/// Parsing an identity's canonical name yields the identity back, except for
/// `Kucoin`, whose name parses to `Binance` (the documented quirk of the
/// name mapping).
pub proof fn lemma_exchange_round_trip(e: Exchange)
    ensures
        spec_exchange_from_str(spec_exchange_name(e)) == Some(
            if e == Exchange::Kucoin {
                Exchange::Binance
            } else {
                e
            },
        ),
{
    reveal_strlit("unknown");
    reveal_strlit("-");
    reveal_strlit("bittrex");
    reveal_strlit("binance");
    reveal_strlit("kucoin");
    match e {
        Exchange::Unknown => {
            assert("-"@ == "-"@);
        },
        Exchange::Bittrex => {
            assert("bittrex"@[0] != "unknown"@[0]);
            assert("bittrex"@.len() != "-"@.len());
        },
        Exchange::Binance => {
            assert("binance"@[0] != "unknown"@[0]);
            assert("binance"@.len() != "-"@.len());
            assert("binance"@[2] != "bittrex"@[2]);
        },
        Exchange::Kucoin => {
            assert("kucoin"@[0] != "unknown"@[0]);
            assert("kucoin"@.len() != "-"@.len());
            assert("kucoin"@.len() != "bittrex"@.len());
            assert("kucoin"@.len() != "binance"@.len());
        },
    }
}

/// The capability contract every exchange adapter implements. Adapters live
/// outside this crate (they own the network clients); the contract fixes the
/// shape and the universal guarantees of each operation. Operations an
/// exchange does not offer return `TrailerError::Unsupported`.
pub trait ExchangeAPI {
    /// The exchange's canonical bitcoin ticker symbol; adapters of an
    /// exchange that uses another ticker override this.
    open spec fn spec_btc_symbol(&self) -> Seq<char> {
        "BTC"@
    }

    /// The exchange's canonical USD-pegged stablecoin ticker symbol;
    /// adapters of an exchange that uses another ticker override this.
    open spec fn spec_usd_symbol(&self) -> Seq<char> {
        "USDT"@
    }

    /// Human-readable exchange name.
    fn display(&self) -> String;

    fn btc_symbol(&self) -> (r: String)
        ensures
            r@ == self.spec_btc_symbol(),
    ;

    fn usd_symbol(&self) -> (r: String)
        ensures
            r@ == self.spec_usd_symbol(),
    ;

    /// The exchange's recognized base currencies, most specific first; the
    /// pair parser tests them in this order.
    fn base_pairs(&self) -> Vec<String>;

    /// Current price of the BTC/USD(T) pair.
    fn btc_price(&self) -> Result<Pair, TrailerError>;

    /// Account balances; zero-amount assets are filtered out, and every
    /// surfaced asset holds at least its locked portion.
    fn balances(&self) -> (r: Result<Vec<Asset>, TrailerError>)
        ensures
            r matches Ok(v) ==> forall|i: int|
                0 <= i < v.len() ==> (#[trigger] v[i])@.amount > 0 && v[i]@.amount
                    >= v[i]@.locked,
    ;

    /// Current price of one raw exchange pair string, parsed into a [`Pair`].
    fn pair(&self, pair: &str) -> Result<Pair, TrailerError>;

    /// Current price of every tradable pair; entries whose symbol cannot be
    /// parsed are silently omitted.
    fn all_pairs(&self) -> Result<Vec<Pair>, TrailerError>;

    fn limit_buy(&self, symbol: &str, amount: Decimal, price: Decimal) -> Result<
        (),
        TrailerError,
    >;

    fn limit_sell(&self, symbol: &str, amount: Decimal, price: Decimal) -> Result<
        (),
        TrailerError,
    >;

    fn stop_loss(
        &self,
        symbol: &str,
        amount: Decimal,
        stop_price: Decimal,
        limit_price: Decimal,
    ) -> Result<(), TrailerError>;

    /// Currently resting orders across all symbols.
    fn open_orders(&self) -> Result<Vec<Order>, TrailerError>;

    /// Historical orders; adapters may return `Unsupported`.
    fn past_orders(&self) -> Result<Vec<Order>, TrailerError>;

    /// Trade history reshaped into the order view.
    fn trades_for(&self, symbol: &str) -> Result<Vec<Order>, TrailerError>;

    /// Trade history with fully resolved pairs.
    fn _trades_for(&self, symbol: &str) -> Result<Vec<Trade>, TrailerError>;

    /// OHLCV buckets for one symbol and interval, oldest first.
    fn chart_data(&self, symbol: &str, interval: &str) -> Result<Vec<Candlestick>, TrailerError>;

    /// Serialize a pair back into the exchange's native concatenation order.
    fn pair_format(&self, pair: Pair) -> String;

    /// Parse a raw pair string and wrap it with the given price.
    fn string_to_pair(&self, pair: String, price: Decimal) -> Result<Pair, TrailerError>;

    fn symbol_and_base_to_pair_format(&self, symbol: &str, base: &str) -> String;
}

/// First pair matching the exchange's BTC and USD symbols in either order.
pub fn btc_pair<E: ExchangeAPI>(api: &E, pairs: Vec<Pair>) -> (r: Option<Pair>)
    ensures
        r.deep_view() == spec_find_pair(
            pairs.deep_view(),
            api.spec_btc_symbol(),
            api.spec_usd_symbol(),
        ),
{
    let btc = api.btc_symbol();
    let usd = api.usd_symbol();
    find_pair_by_symbol_and_base(btc.as_str(), usd.as_str(), pairs)
}

/// First pair matching the exchange's USD and BTC symbols in either order.
pub fn usd_pair<E: ExchangeAPI>(api: &E, pairs: Vec<Pair>) -> (r: Option<Pair>)
    ensures
        r.deep_view() == spec_find_pair(
            pairs.deep_view(),
            api.spec_usd_symbol(),
            api.spec_btc_symbol(),
        ),
{
    let btc = api.btc_symbol();
    let usd = api.usd_symbol();
    find_pair_by_symbol_and_base(usd.as_str(), btc.as_str(), pairs)
}

} // verus!

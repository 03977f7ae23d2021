use trailer::decimal::Decimal;
use trailer::error::TrailerError;
use trailer::exchanges::{btc_pair, usd_pair, Exchange, ExchangeAPI};
use trailer::models::{find_pair_by_symbol_and_base, Asset, Candlestick, Order, Pair, Trade};
use trailer::socket::{agg_trade_channel, price_change_event, Event};

#[test]
fn exchange_names_round_trip() {
    for name in ["bittrex", "binance", "-"] {
        let e = Exchange::from_str(name).unwrap();
        assert_eq!(e.to_string(), name);
    }
    assert_eq!(Exchange::from_str("unknown").unwrap(), Exchange::Unknown);
    assert_eq!(Exchange::Unknown.to_string(), "-");
}

#[test]
fn kucoin_name_maps_to_binance_quirk() {
    // the documented quirk: "kucoin" parses to the Binance identity,
    // so the Kucoin variant's own name does not round-trip
    assert_eq!(Exchange::from_str("kucoin").unwrap(), Exchange::Binance);
    assert_eq!(Exchange::Kucoin.to_string(), "kucoin");
    assert_ne!(Exchange::from_str("kucoin").unwrap(), Exchange::Kucoin);
}

#[test]
fn unknown_exchange_names_are_rejected() {
    assert!(Exchange::from_str("coinbase").is_err());
    assert!(Exchange::from_str("Binance").is_err()); // case-sensitive
    assert!(Exchange::from_str("").is_err());
}

fn pair(symbol: &str, base: &str, units: u64) -> Pair {
    Pair { symbol: symbol.to_string(), base: base.to_string(), price: Decimal::from_units(units) }
}

#[test]
fn find_pair_matches_either_order() {
    let pairs = vec![pair("ETH", "BTC", 1), pair("BTC", "USDT", 2)];
    let hit = find_pair_by_symbol_and_base("BTC", "USDT", pairs.clone()).unwrap();
    assert_eq!(hit.price.units, 2);
    let hit = find_pair_by_symbol_and_base("USDT", "BTC", pairs.clone()).unwrap();
    assert_eq!(hit.price.units, 2);
    assert!(find_pair_by_symbol_and_base("XRP", "USDT", pairs).is_none());
}

#[test]
fn find_pair_returns_first_match() {
    let pairs = vec![pair("BTC", "USDT", 1), pair("USDT", "BTC", 2)];
    let hit = find_pair_by_symbol_and_base("BTC", "USDT", pairs).unwrap();
    assert_eq!(hit.price.units, 1);
}

struct FixedExchange;

impl ExchangeAPI for FixedExchange {
    fn display(&self) -> String {
        "Fixed".to_string()
    }
    fn btc_symbol(&self) -> String {
        "BTC".to_string()
    }
    fn usd_symbol(&self) -> String {
        "USDT".to_string()
    }
    fn base_pairs(&self) -> Vec<String> {
        vec!["USDT".to_string(), "BTC".to_string()]
    }
    fn btc_price(&self) -> Result<Pair, TrailerError> {
        Err(TrailerError::Unsupported)
    }
    fn balances(&self) -> Result<Vec<Asset>, TrailerError> {
        Ok(Vec::new())
    }
    fn pair(&self, _pair: &str) -> Result<Pair, TrailerError> {
        Err(TrailerError::Unsupported)
    }
    fn all_pairs(&self) -> Result<Vec<Pair>, TrailerError> {
        Ok(Vec::new())
    }
    fn limit_buy(&self, _s: &str, _a: Decimal, _p: Decimal) -> Result<(), TrailerError> {
        Err(TrailerError::Unsupported)
    }
    fn limit_sell(&self, _s: &str, _a: Decimal, _p: Decimal) -> Result<(), TrailerError> {
        Err(TrailerError::Unsupported)
    }
    fn stop_loss(
        &self,
        _s: &str,
        _a: Decimal,
        _sp: Decimal,
        _lp: Decimal,
    ) -> Result<(), TrailerError> {
        Err(TrailerError::Unsupported)
    }
    fn open_orders(&self) -> Result<Vec<Order>, TrailerError> {
        Ok(Vec::new())
    }
    fn past_orders(&self) -> Result<Vec<Order>, TrailerError> {
        Err(TrailerError::Unsupported)
    }
    fn trades_for(&self, _symbol: &str) -> Result<Vec<Order>, TrailerError> {
        Ok(Vec::new())
    }
    fn _trades_for(&self, _symbol: &str) -> Result<Vec<Trade>, TrailerError> {
        Ok(Vec::new())
    }
    fn chart_data(&self, _s: &str, _i: &str) -> Result<Vec<Candlestick>, TrailerError> {
        Ok(Vec::new())
    }
    fn pair_format(&self, pair: Pair) -> String {
        format!("{}{}", pair.symbol, pair.base)
    }
    fn string_to_pair(&self, _pair: String, _price: Decimal) -> Result<Pair, TrailerError> {
        Err(TrailerError::Unsupported)
    }
    fn symbol_and_base_to_pair_format(&self, symbol: &str, base: &str) -> String {
        format!("{}{}", symbol, base)
    }
}

#[test]
fn btc_and_usd_pair_scan_by_exchange_symbols() {
    let api = FixedExchange;
    let pairs = vec![pair("ETH", "BTC", 1), pair("BTC", "USDT", 2)];
    let hit = btc_pair(&api, pairs.clone()).unwrap();
    assert_eq!(hit.symbol, "BTC");
    assert_eq!(hit.base, "USDT");
    let hit = usd_pair(&api, pairs).unwrap();
    assert_eq!(hit.price.units, 2);
    assert!(btc_pair(&api, Vec::new()).is_none());
}

#[test]
fn listener_channel_and_event() {
    assert_eq!(agg_trade_channel("bnbbtc"), "bnbbtc@aggTrade");
    let e = price_change_event("BNBBTC".to_string(), Decimal::from_units(5), Decimal::from_units(2));
    let Event::PriceChange(s, p, q) = e;
    assert_eq!(s, "BNBBTC");
    assert_eq!(p.units, 5);
    assert_eq!(q.units, 2);
}

#[test]
fn known_symbol_lists() {
    assert_eq!(
        trailer::known_stablecoin_symbols(),
        vec!["USDT".to_string(), "USD".to_string(), "TUSD".to_string()]
    );
    assert_eq!(trailer::known_btc_symbols(), vec!["XBT".to_string(), "BTC".to_string()]);
}

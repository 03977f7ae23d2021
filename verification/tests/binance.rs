use trailer::decimal::Decimal;
use trailer::error::TrailerError;
use trailer::exchanges::binance;
use trailer::exchanges::binance::{RawBalance, RawKline, RawOrder, RawPrice, RawTrade};
use trailer::exchanges::Exchange;
use trailer::models::{Pair, TradeType};

fn raw_balance(asset: &str, free: &str, locked: &str) -> RawBalance {
    RawBalance { asset: asset.to_string(), free: free.to_string(), locked: locked.to_string() }
}

#[test]
fn balances_normalizes_and_filters() {
    let raw = vec![raw_balance("BTC", "1.5", "0.5"), raw_balance("DUST", "0", "0")];
    let assets = binance::balances(&raw).unwrap();
    assert_eq!(assets.len(), 1);
    assert_eq!(assets[0].symbol, "BTC");
    assert_eq!(assets[0].amount.units, 200_000_000); // 2.0
    assert_eq!(assets[0].locked.units, 50_000_000); // 0.5
    assert_eq!(assets[0].exchange, Exchange::Binance);
}

#[test]
fn balances_never_surface_nonpositive_amounts() {
    let raw = vec![
        raw_balance("A", "0.1", "0"),
        raw_balance("B", "0", "0"),
        raw_balance("C", "0", "3"),
        raw_balance("D", "2", "1.25"),
    ];
    let assets = binance::balances(&raw).unwrap();
    assert_eq!(assets.len(), 3);
    for a in &assets {
        assert!(a.amount.units > 0);
        assert!(a.amount.units >= a.locked.units);
    }
}

#[test]
fn balances_fail_on_unparsable_field() {
    let raw = vec![raw_balance("BTC", "not-a-number", "0")];
    assert!(matches!(binance::balances(&raw), Err(TrailerError::Generic(_))));
    let raw = vec![raw_balance("BTC", "1", "1.2.3")];
    assert!(matches!(binance::balances(&raw), Err(TrailerError::Generic(_))));
}

#[test]
fn all_pairs_silently_omits_unparsable_symbols() {
    let raw = vec![
        RawPrice { symbol: "BTCUSDT".to_string(), price: Decimal::from_units(1) },
        RawPrice { symbol: "JUNKEUR".to_string(), price: Decimal::from_units(2) },
        RawPrice { symbol: "ETHBTC".to_string(), price: Decimal::from_units(3) },
    ];
    let pairs = binance::all_pairs(&raw);
    assert_eq!(pairs.len(), 2);
    assert_eq!(pairs[0].symbol, "BTC");
    assert_eq!(pairs[0].base, "USDT");
    assert_eq!(pairs[0].price.units, 1);
    assert_eq!(pairs[1].symbol, "ETH");
    assert_eq!(pairs[1].base, "BTC");
    assert_eq!(pairs[1].price.units, 3);
}

#[test]
fn pair_parses_raw_symbol() {
    let p = binance::pair("ETHBTC", Decimal::from_units(7)).unwrap();
    assert_eq!(p.symbol, "ETH");
    assert_eq!(p.base, "BTC");
    assert_eq!(p.price.units, 7);
    assert!(matches!(
        binance::pair("JUNKEUR", Decimal::from_units(7)),
        Err(TrailerError::BasePairNotFound)
    ));
}

#[test]
fn btc_price_is_the_btc_usdt_pair() {
    let p = binance::btc_price(Decimal::parse("65000.5").unwrap());
    assert_eq!(p.symbol, "BTC");
    assert_eq!(p.base, "USDT");
    assert_eq!(p.price, Decimal::parse("65000.5").unwrap());
}

#[test]
fn stop_loss_is_unsupported_not_network() {
    let d = Decimal::from_units(1);
    let r = binance::stop_loss("BTCUSDT", d, d, d);
    assert!(matches!(r, Err(TrailerError::Unsupported)));
}

#[test]
fn past_orders_is_unsupported() {
    assert!(matches!(binance::past_orders(), Err(TrailerError::Unsupported)));
}

#[test]
fn open_orders_maps_fields() {
    let raw = vec![
        RawOrder {
            order_id: "17".to_string(),
            symbol: "BTCUSDT".to_string(),
            side: "Buy".to_string(),
            executed_qty: "0.25".to_string(),
            orig_qty: "1.0".to_string(),
        },
        RawOrder {
            order_id: "18".to_string(),
            symbol: "ETHBTC".to_string(),
            side: "SELL".to_string(),
            executed_qty: "2".to_string(),
            orig_qty: "2".to_string(),
        },
    ];
    let orders = binance::open_orders(&raw).unwrap();
    assert_eq!(orders.len(), 2);
    assert_eq!(orders[0].id, "17");
    assert_eq!(orders[0].symbol, "BTCUSDT");
    assert_eq!(orders[0].order_type, TradeType::Buy);
    assert_eq!(orders[0].qty.units, 25_000_000);
    assert_eq!(orders[0].price.units, 100_000_000);
    assert_eq!(orders[1].order_type, TradeType::Sell);
}

#[test]
fn open_orders_fail_on_unparsable_quantity() {
    let raw = vec![RawOrder {
        order_id: "17".to_string(),
        symbol: "BTCUSDT".to_string(),
        side: "Buy".to_string(),
        executed_qty: "??".to_string(),
        orig_qty: "1.0".to_string(),
    }];
    assert!(matches!(binance::open_orders(&raw), Err(TrailerError::Generic(_))));
}

fn raw_trade(id: &str, time: i64, price: u64, qty: u64, is_buyer: bool) -> RawTrade {
    RawTrade {
        id: id.to_string(),
        time,
        price: Decimal::from_units(price),
        qty: Decimal::from_units(qty),
        is_buyer,
    }
}

#[test]
fn trades_resolve_the_requested_pair() {
    let raw = vec![raw_trade("a", 1_000, 5, 2, true), raw_trade("b", 2_000, 6, 3, false)];
    let trades = binance::_trades_for("ETHBTC", &raw).unwrap();
    assert_eq!(trades.len(), 2);
    assert_eq!(trades[0].id, "a");
    assert_eq!(trades[0].time, 1_000);
    assert_eq!(trades[0].pair.symbol, "ETH");
    assert_eq!(trades[0].pair.base, "BTC");
    assert_eq!(trades[0].pair.price.units, 5); // the trade's own price
    assert_eq!(trades[0].trade_type, TradeType::Buy);
    assert_eq!(trades[1].trade_type, TradeType::Sell);
    assert_eq!(trades[1].qty.units, 3);
}

#[test]
fn trades_for_unknown_base_fail() {
    let raw = vec![raw_trade("a", 1, 1, 1, true)];
    assert!(matches!(
        binance::_trades_for("JUNKEUR", &raw),
        Err(TrailerError::BasePairNotFound)
    ));
}

#[test]
fn trades_for_pair_keeps_the_given_pair() {
    let pair = Pair {
        symbol: "ETH".to_string(),
        base: "BTC".to_string(),
        price: Decimal::from_units(99),
    };
    let raw = vec![raw_trade("a", 1_000, 5, 2, false)];
    let trades = binance::trades_for_pair(&pair, &raw);
    assert_eq!(trades.len(), 1);
    assert_eq!(trades[0].pair.price.units, 99); // the pair's price, not the trade's
    assert_eq!(trades[0].price.units, 5);
    assert_eq!(trades[0].trade_type, TradeType::Sell);
}

#[test]
fn trades_reshape_into_order_view() {
    let raw = vec![raw_trade("t1", 1, 11, 4, true)];
    let orders = binance::trades_for("BTCUSDT", &raw);
    assert_eq!(orders.len(), 1);
    assert_eq!(orders[0].id, "t1");
    assert_eq!(orders[0].symbol, "BTCUSDT");
    assert_eq!(orders[0].order_type, TradeType::Buy);
    assert_eq!(orders[0].qty.units, 4);
    assert_eq!(orders[0].price.units, 11);
}

#[test]
fn chart_data_keeps_order_and_fields() {
    let raw = vec![
        RawKline {
            open_time: 10,
            open_price: Decimal::from_units(1),
            close_price: Decimal::from_units(2),
            high_price: Decimal::from_units(3),
            low_price: Decimal::from_units(4),
            volume: Decimal::from_units(5),
            trades: 6,
        },
        RawKline {
            open_time: 20,
            open_price: Decimal::from_units(7),
            close_price: Decimal::from_units(8),
            high_price: Decimal::from_units(9),
            low_price: Decimal::from_units(10),
            volume: Decimal::from_units(11),
            trades: 12,
        },
    ];
    let candles = binance::chart_data(&raw);
    assert_eq!(candles.len(), 2);
    assert_eq!(candles[0].open_time, 10);
    assert_eq!(candles[0].close_price.units, 2);
    assert_eq!(candles[0].number_of_trades, 6);
    assert_eq!(candles[1].open_time, 20);
    assert_eq!(candles[1].volume.units, 11);
}

#[test]
fn binance_constants_and_formatting() {
    assert_eq!(binance::display(), "Binance");
    assert_eq!(binance::btc_symbol(), "BTC");
    assert_eq!(binance::usd_symbol(), "USDT");
    assert_eq!(binance::base_pairs(), vec!["USDT".to_string(), "BTC".to_string()]);
    assert_eq!(binance::symbol_and_base_to_pair_format("ETH", "BTC"), "ETHBTC");
    let p = binance::string_to_pair("BNBUSDT".to_string(), Decimal::from_units(3)).unwrap();
    assert_eq!(p.symbol, "BNB");
    assert_eq!(p.base, "USDT");
    assert_eq!(binance::pair_format(&p), "BNBUSDT");
}

use trailer::decimal::Decimal;
use trailer::error::TrailerError;
use trailer::exchanges::binance;
use trailer::models::Pair;
use trailer::parser::split_symbol_and_base;

fn bases(list: &[&str]) -> Vec<String> {
    list.iter().map(|s| s.to_string()).collect()
}

#[test]
fn splits_with_ordered_base_list() {
    // "USDT" is checked and matched before "BTC" could false-match the prefix
    let b = bases(&["USDT", "BTC"]);
    let (symbol, base) = split_symbol_and_base("BTCUSDT", &b).unwrap();
    assert_eq!(symbol, "BTC");
    assert_eq!(base, "USDT");
}

#[test]
fn split_returns_first_matching_base() {
    let b = bases(&["T", "USDT"]);
    let (symbol, base) = split_symbol_and_base("BTCUSDT", &b).unwrap();
    assert_eq!(symbol, "BTCUSD");
    assert_eq!(base, "T");
}

#[test]
fn split_without_matching_base_fails() {
    let b = bases(&["USDT", "BTC"]);
    let r = split_symbol_and_base("ETHEUR", &b);
    assert!(matches!(r, Err(TrailerError::BasePairNotFound)));
}

#[test]
fn split_of_bare_base_yields_empty_symbol() {
    let b = bases(&["USDT", "BTC"]);
    let (symbol, base) = split_symbol_and_base("USDT", &b).unwrap();
    assert_eq!(symbol, "");
    assert_eq!(base, "USDT");
}

#[test]
fn split_strips_one_suffix_only() {
    // a symbol equal to the base must survive the split, so that
    // symbol + base reconstructs the raw string
    let b = bases(&["USDT", "BTC"]);
    let (symbol, base) = split_symbol_and_base("BTCBTC", &b).unwrap();
    assert_eq!(symbol, "BTC");
    assert_eq!(base, "BTC");
}

#[test]
fn split_then_format_round_trips() {
    let b = bases(&["USDT", "BTC"]);
    for raw in ["BTCUSDT", "ETHBTC", "BNBUSDT", "USDT"] {
        let (symbol, base) = split_symbol_and_base(raw, &b).unwrap();
        let pair = Pair { symbol, base, price: Decimal::from_units(0) };
        assert_eq!(binance::pair_format(&pair), raw);
    }
}

#[test]
fn decimal_parses_fraction() {
    assert_eq!(Decimal::parse("1.5").unwrap().units, 150_000_000);
    assert_eq!(Decimal::parse("0.5").unwrap().units, 50_000_000);
    assert_eq!(Decimal::parse("0.00000001").unwrap().units, 1);
}

#[test]
fn decimal_parses_integer() {
    assert_eq!(Decimal::parse("42").unwrap().units, 4_200_000_000);
    assert_eq!(Decimal::parse("0").unwrap().units, 0);
    assert_eq!(Decimal::parse("0.00000000").unwrap().units, 0);
}

#[test]
fn decimal_rejects_malformed() {
    assert!(Decimal::parse("").is_none());
    assert!(Decimal::parse("abc").is_none());
    assert!(Decimal::parse("1.2.3").is_none());
    assert!(Decimal::parse("1.").is_none());
    assert!(Decimal::parse(".5").is_none());
    assert!(Decimal::parse("-1").is_none());
    assert!(Decimal::parse("1,5").is_none());
}

#[test]
fn decimal_rejects_excess_precision() {
    assert!(Decimal::parse("0.123456789").is_none());
    assert_eq!(Decimal::parse("0.12345678").unwrap().units, 12_345_678);
}

#[test]
fn decimal_range_limits() {
    assert_eq!(Decimal::parse("184467440737.09551615").unwrap().units, u64::MAX);
    assert!(Decimal::parse("184467440737.09551616").is_none());
    assert!(Decimal::parse("999999999999999999999").is_none());
}

#[test]
fn decimal_arithmetic_and_order() {
    let a = Decimal::parse("1.5").unwrap();
    let b = Decimal::parse("0.5").unwrap();
    assert_eq!(a.checked_add(b).unwrap().units, 200_000_000);
    assert!(Decimal::from_units(u64::MAX).checked_add(Decimal::from_units(1)).is_none());
    assert!(a.is_positive());
    assert!(!Decimal::from_units(0).is_positive());
    assert!(a.ge(&b));
    assert!(!b.ge(&a));
}

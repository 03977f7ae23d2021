//! The Binance side of the capability contract: its symbols, its ordered
//! base-currency list, and the normalization of each raw Binance response
//! shape into the canonical domain types. The surrounding application owns
//! the network clients and hands the raw values in as plain data.
use vstd::prelude::*;

use crate::decimal::{Decimal, spec_parse_decimal};
use crate::error::TrailerError;
use crate::exchanges::Exchange;
use crate::models::{Asset, AssetModel, Candlestick, CandlestickModel, Order, OrderModel, Pair,
    PairModel, Trade, TradeModel, TradeType, str_eq};
use crate::parser::{spec_split, split_symbol_and_base, is_suffix_of};

verus! {

/// One entry of a raw Binance account response: the asset name and the free
/// and locked amounts as the decimal strings the exchange sent.
pub struct RawBalance {
    pub asset: String,
    pub free: String,
    pub locked: String,
}

pub ghost struct RawBalanceModel {
    pub asset: Seq<char>,
    pub free: Seq<char>,
    pub locked: Seq<char>,
}

impl View for RawBalance {
    type V = RawBalanceModel;

    open spec fn view(&self) -> RawBalanceModel {
        RawBalanceModel { asset: self.asset@, free: self.free@, locked: self.locked@ }
    }
}

impl DeepView for RawBalance {
    type V = RawBalanceModel;

    open spec fn deep_view(&self) -> RawBalanceModel {
        self@
    }
}

/// One entry of a raw Binance all-prices response.
pub struct RawPrice {
    pub symbol: String,
    pub price: Decimal,
}

pub ghost struct RawPriceModel {
    pub symbol: Seq<char>,
    pub price: nat,
}

impl View for RawPrice {
    type V = RawPriceModel;

    open spec fn view(&self) -> RawPriceModel {
        RawPriceModel { symbol: self.symbol@, price: self.price@ }
    }
}

impl DeepView for RawPrice {
    type V = RawPriceModel;

    open spec fn deep_view(&self) -> RawPriceModel {
        self@
    }
}

/// Binance's recognized base currencies, most specific first. The order is a
/// correctness invariant of the parser: `"USDT"` must be tested before any
/// shorter base that could false-match inside it.
pub open spec fn spec_base_pairs() -> Seq<Seq<char>> {
    seq!["USDT"@, "BTC"@]
}

/// The ordered base-currency list the Binance pair parser uses.
pub fn base_pairs() -> (r: Vec<String>)
    ensures
        r.deep_view() == spec_base_pairs(),
{
    let mut v: Vec<String> = Vec::new();
    v.push("USDT".to_owned());
    v.push("BTC".to_owned());
    proof {
        assert(v.deep_view() =~= spec_base_pairs());
    }
    v
}

/// Human-readable exchange name.
pub fn display() -> (r: String)
    ensures
        r@ == "Binance"@,
{
    "Binance".to_owned()
}

/// Binance's canonical bitcoin ticker symbol.
pub fn btc_symbol() -> (r: String)
    ensures
        r@ == "BTC"@,
{
    "BTC".to_owned()
}

/// Binance's canonical USD-pegged stablecoin ticker symbol.
pub fn usd_symbol() -> (r: String)
    ensures
        r@ == "USDT"@,
{
    "USDT".to_owned()
}

/// Serialize a pair back into Binance's native concatenation order,
/// symbol then base.
pub fn pair_format(pair: &Pair) -> (r: String)
    ensures
        r@ == pair@.symbol + pair@.base,
{
    pair.symbol.clone().concat(pair.base.as_str())
}

/// Binance's native pair string for a symbol and a base.
pub fn symbol_and_base_to_pair_format(symbol: &str, base: &str) -> (r: String)
    ensures
        r@ == symbol@ + base@,
{
    symbol.to_owned().concat(base)
}

/// The asset one raw balance entry normalizes to: both amounts parsed as
/// decimals, the full amount being free plus locked; `None` when a field is
/// unparsable or an amount cannot be represented.
pub open spec fn spec_asset_of(rb: RawBalanceModel) -> Option<AssetModel> {
    match (spec_parse_decimal(rb.free), spec_parse_decimal(rb.locked)) {
        (Some(f), Some(l)) => if f <= u64::MAX && l <= u64::MAX && f + l <= u64::MAX {
            Some(
                AssetModel {
                    symbol: rb.asset,
                    amount: f + l,
                    locked: l,
                    exchange: Exchange::Binance,
                },
            )
        } else {
            None
        },
        _ => None,
    }
}

/// The normalized balance list: every entry converted by [`spec_asset_of`],
/// zero-amount assets filtered out; `None` when any entry fails to convert.
pub open spec fn spec_balances(rs: Seq<RawBalanceModel>) -> Option<Seq<AssetModel>>
    decreases rs.len(),
{
    if rs.len() == 0 {
        Some(Seq::empty())
    } else {
        match (spec_balances(rs.drop_last()), spec_asset_of(rs.last())) {
            (Some(rest), Some(a)) => if a.amount > 0 {
                Some(rest.push(a))
            } else {
                Some(rest)
            },
            _ => None,
        }
    }
}

/// Balance normalization succeeds exactly when every raw entry converts.
pub proof fn lemma_balances_some_iff(rs: Seq<RawBalanceModel>)
    ensures
        (spec_balances(rs) is Some) <==> (forall|i: int|
            0 <= i < rs.len() ==> spec_asset_of(#[trigger] rs[i]) is Some),
    decreases rs.len(),
{
    if rs.len() > 0 {
        lemma_balances_some_iff(rs.drop_last());
        assert(rs.last() == rs[rs.len() - 1]);
        assert(forall|i: int| 0 <= i < rs.len() - 1 ==> rs.drop_last()[i] == #[trigger] rs[i]);
    }
}

/// Every asset the balance normalization surfaces has a strictly positive
/// amount, holds at least its locked portion, and is tagged as Binance.
pub proof fn lemma_balances_positive(rs: Seq<RawBalanceModel>)
    ensures
        spec_balances(rs) matches Some(v) ==> forall|i: int|
            0 <= i < v.len() ==> (#[trigger] v[i]).amount > 0 && v[i].amount >= v[i].locked
                && v[i].exchange == Exchange::Binance,
    decreases rs.len(),
{
    if rs.len() > 0 {
        lemma_balances_positive(rs.drop_last());
    }
}

/// Normalize a raw Binance account response into the surfaced asset list:
/// parse each free/locked field, sum them, drop zero-amount assets, and tag
/// each asset as Binance. Fails with a `Generic` error when any numeric
/// field is unparsable or an amount cannot be represented.
pub fn balances(raw: &Vec<RawBalance>) -> (r: Result<Vec<Asset>, TrailerError>)
    ensures
        (r is Ok) <==> (spec_balances(raw.deep_view()) is Some),
        r matches Ok(v) ==> Some(v.deep_view()) == spec_balances(raw.deep_view()),
        r matches Ok(v) ==> forall|i: int|
            0 <= i < v.len() ==> (#[trigger] v[i])@.amount > 0 && v[i]@.amount >= v[i]@.locked
                && v[i]@.exchange == Exchange::Binance,
        r matches Err(e) ==> e is Generic,
{
    let ghost rs = raw.deep_view();
    let mut out: Vec<Asset> = Vec::new();
    let mut i: usize = 0;
    proof {
        assert(rs.subrange(0, 0).len() == 0);
    }
    while i < raw.len()
        invariant
            0 <= i <= raw.len(),
            rs == raw.deep_view(),
            rs.len() == raw.len(),
            forall|k: int| 0 <= k < rs.len() ==> rs[k] == #[trigger] raw[k]@,
            spec_balances(rs.subrange(0, i as int)) == Some(out.deep_view()),
        decreases raw.len() - i,
    {
        let entry = &raw[i];
        let ghost prev = out.deep_view();
        proof {
            assert(rs.subrange(0, i + 1).drop_last() =~= rs.subrange(0, i as int));
            assert(rs.subrange(0, i + 1).last() == rs[i as int]);
        }
        let free = match Decimal::parse(entry.free.as_str()) {
            Some(d) => d,
            None => {
                proof {
                    lemma_balances_some_iff(rs);
                }
                return Err(TrailerError::Generic("unparsable balance amount".to_owned()));
            },
        };
        let locked = match Decimal::parse(entry.locked.as_str()) {
            Some(d) => d,
            None => {
                proof {
                    lemma_balances_some_iff(rs);
                }
                return Err(TrailerError::Generic("unparsable balance amount".to_owned()));
            },
        };
        let amount = match free.checked_add(locked) {
            Some(d) => d,
            None => {
                proof {
                    lemma_balances_some_iff(rs);
                }
                return Err(TrailerError::Generic("balance amount out of range".to_owned()));
            },
        };
        if amount.is_positive() {
            out.push(
                Asset {
                    symbol: entry.asset.clone(),
                    amount,
                    locked,
                    exchange: Exchange::Binance,
                },
            );
            proof {
                assert(out.deep_view() =~= prev.push(
                    AssetModel {
                        symbol: rs[i as int].asset,
                        amount: free@ + locked@,
                        locked: locked@,
                        exchange: Exchange::Binance,
                    },
                ));
            }
        }
        i = i + 1;
    }
    proof {
        assert(rs.subrange(0, rs.len() as int) =~= rs);
        lemma_balances_positive(rs);
        assert(forall|k: int|
            0 <= k < out.len() ==> (#[trigger] out[k])@ == out.deep_view()[k]);
    }
    Ok(out)
}

/// The pair one raw price entry normalizes to, or `None` when its symbol
/// matches no known Binance base currency.
pub open spec fn spec_pair_of(rp: RawPriceModel) -> Option<PairModel> {
    match spec_split(rp.symbol, spec_base_pairs()) {
        Some(sb) => Some(PairModel { symbol: sb.0, base: sb.1, price: rp.price }),
        None => None,
    }
}

/// The normalized all-prices list: parsable symbols in their original order;
/// unparsable entries are silently omitted, never an error.
pub open spec fn spec_all_pairs(ps: Seq<RawPriceModel>) -> Seq<PairModel>
    decreases ps.len(),
{
    if ps.len() == 0 {
        Seq::empty()
    } else {
        let rest = spec_all_pairs(ps.drop_last());
        match spec_pair_of(ps.last()) {
            Some(p) => rest.push(p),
            None => rest,
        }
    }
}

/// Normalize a raw Binance all-prices response: parse every symbol against
/// the base list and keep the parsable entries in order. An unparsable
/// symbol drops its entry silently; the function itself cannot fail.
pub fn all_pairs(prices: &Vec<RawPrice>) -> (r: Vec<Pair>)
    ensures
        r.deep_view() == spec_all_pairs(prices.deep_view()),
{
    let ghost ps = prices.deep_view();
    let bases = base_pairs();
    let mut out: Vec<Pair> = Vec::new();
    let mut i: usize = 0;
    proof {
        assert(ps.subrange(0, 0).len() == 0);
    }
    while i < prices.len()
        invariant
            0 <= i <= prices.len(),
            ps == prices.deep_view(),
            ps.len() == prices.len(),
            forall|k: int| 0 <= k < ps.len() ==> ps[k] == #[trigger] prices[k]@,
            bases.deep_view() == spec_base_pairs(),
            out.deep_view() == spec_all_pairs(ps.subrange(0, i as int)),
        decreases prices.len() - i,
    {
        let entry = &prices[i];
        let ghost prev = out.deep_view();
        proof {
            assert(ps.subrange(0, i + 1).drop_last() =~= ps.subrange(0, i as int));
            assert(ps.subrange(0, i + 1).last() == ps[i as int]);
        }
        match split_symbol_and_base(entry.symbol.as_str(), &bases) {
            Ok((symbol, base)) => {
                out.push(Pair { symbol, base, price: entry.price });
                proof {
                    assert(out.deep_view() =~= prev.push(spec_pair_of(ps[i as int])->Some_0));
                }
            },
            Err(_) => {},
        }
        i = i + 1;
    }
    proof {
        assert(ps.subrange(0, ps.len() as int) =~= ps);
    }
    out
}

/// Current-price lookup for one raw pair string: attach the fetched price
/// and split the string into symbol and base.
pub fn pair(pair_str: &str, price: Decimal) -> (r: Result<Pair, TrailerError>)
    ensures
        (r is Ok) <==> (spec_split(pair_str@, spec_base_pairs()) is Some),
        r matches Ok(p) ==> spec_split(pair_str@, spec_base_pairs()) == Some(
            (p@.symbol, p@.base),
        ) && p@.price == price@,
        r matches Err(e) ==> e is BasePairNotFound,
{
    string_to_pair(pair_str.to_owned(), price)
}

/// The BTC/USDT pair at the given fetched price: the convenience shortcut
/// for Binance's bitcoin market, which always parses.
pub fn btc_price(price: Decimal) -> (r: Pair)
    ensures
        r@.symbol == "BTC"@,
        r@.base == "USDT"@,
        r@.price == price@,
{
    proof {
        reveal_strlit("BTCUSDT");
        reveal_strlit("USDT");
        reveal_strlit("BTC");
        assert("BTCUSDT"@.subrange(3, 7) =~= "USDT"@);
        assert(is_suffix_of("USDT"@, "BTCUSDT"@));
        assert("BTCUSDT"@.subrange(0, 3) =~= "BTC"@);
    }
    match pair("BTCUSDT", price) {
        Ok(p) => p,
        Err(_) => vstd::pervasive::unreached(),
    }
}

/// One raw Binance open-order entry: the order id already rendered as a
/// string, the side as the exchange sent it, and the executed and original
/// quantities as decimal strings.
pub struct RawOrder {
    pub order_id: String,
    pub symbol: String,
    pub side: String,
    pub executed_qty: String,
    pub orig_qty: String,
}

pub ghost struct RawOrderModel {
    pub order_id: Seq<char>,
    pub symbol: Seq<char>,
    pub side: Seq<char>,
    pub executed_qty: Seq<char>,
    pub orig_qty: Seq<char>,
}

impl View for RawOrder {
    type V = RawOrderModel;

    open spec fn view(&self) -> RawOrderModel {
        RawOrderModel {
            order_id: self.order_id@,
            symbol: self.symbol@,
            side: self.side@,
            executed_qty: self.executed_qty@,
            orig_qty: self.orig_qty@,
        }
    }
}

impl DeepView for RawOrder {
    type V = RawOrderModel;

    open spec fn deep_view(&self) -> RawOrderModel {
        self@
    }
}

/// One raw Binance trade-history entry.
pub struct RawTrade {
    pub id: String,
    pub time: i64,
    pub price: Decimal,
    pub qty: Decimal,
    pub is_buyer: bool,
}

pub ghost struct RawTradeModel {
    pub id: Seq<char>,
    pub time: i64,
    pub price: nat,
    pub qty: nat,
    pub is_buyer: bool,
}

impl View for RawTrade {
    type V = RawTradeModel;

    open spec fn view(&self) -> RawTradeModel {
        RawTradeModel {
            id: self.id@,
            time: self.time,
            price: self.price@,
            qty: self.qty@,
            is_buyer: self.is_buyer,
        }
    }
}

impl DeepView for RawTrade {
    type V = RawTradeModel;

    open spec fn deep_view(&self) -> RawTradeModel {
        self@
    }
}

/// One raw Binance kline (candlestick) entry.
pub struct RawKline {
    pub open_time: i32,
    pub open_price: Decimal,
    pub close_price: Decimal,
    pub high_price: Decimal,
    pub low_price: Decimal,
    pub volume: Decimal,
    pub trades: u64,
}

pub ghost struct RawKlineModel {
    pub open_time: i32,
    pub open_price: nat,
    pub close_price: nat,
    pub high_price: nat,
    pub low_price: nat,
    pub volume: nat,
    pub trades: u64,
}

impl View for RawKline {
    type V = RawKlineModel;

    open spec fn view(&self) -> RawKlineModel {
        RawKlineModel {
            open_time: self.open_time,
            open_price: self.open_price@,
            close_price: self.close_price@,
            high_price: self.high_price@,
            low_price: self.low_price@,
            volume: self.volume@,
            trades: self.trades,
        }
    }
}

impl DeepView for RawKline {
    type V = RawKlineModel;

    open spec fn deep_view(&self) -> RawKlineModel {
        self@
    }
}

/// The order one raw open-order entry normalizes to: quantity from the
/// executed amount, price from the original amount (the shape Binance's
/// open-order listing is reduced to), buy exactly when the side reads
/// `"Buy"`. `None` when a numeric field is unparsable or out of range.
pub open spec fn spec_order_of(ro: RawOrderModel) -> Option<OrderModel> {
    match (spec_parse_decimal(ro.executed_qty), spec_parse_decimal(ro.orig_qty)) {
        (Some(q), Some(p)) => if q <= u64::MAX && p <= u64::MAX {
            Some(
                OrderModel {
                    id: ro.order_id,
                    symbol: ro.symbol,
                    order_type: if ro.side == "Buy"@ {
                        TradeType::Buy
                    } else {
                        TradeType::Sell
                    },
                    qty: q,
                    price: p,
                },
            )
        } else {
            None
        },
        _ => None,
    }
}

/// The normalized open-order list; `None` when any entry fails to convert.
pub open spec fn spec_open_orders(rs: Seq<RawOrderModel>) -> Option<Seq<OrderModel>>
    decreases rs.len(),
{
    if rs.len() == 0 {
        Some(Seq::empty())
    } else {
        match (spec_open_orders(rs.drop_last()), spec_order_of(rs.last())) {
            (Some(rest), Some(o)) => Some(rest.push(o)),
            _ => None,
        }
    }
}

/// Order normalization succeeds exactly when every raw entry converts.
pub proof fn lemma_open_orders_some_iff(rs: Seq<RawOrderModel>)
    ensures
        (spec_open_orders(rs) is Some) <==> (forall|i: int|
            0 <= i < rs.len() ==> spec_order_of(#[trigger] rs[i]) is Some),
    decreases rs.len(),
{
    if rs.len() > 0 {
        lemma_open_orders_some_iff(rs.drop_last());
        assert(rs.last() == rs[rs.len() - 1]);
        assert(forall|i: int| 0 <= i < rs.len() - 1 ==> rs.drop_last()[i] == #[trigger] rs[i]);
    }
}

/// Normalize a raw Binance open-orders response. Fails with a `Generic`
/// error when any numeric field is unparsable or out of range.
pub fn open_orders(raw: &Vec<RawOrder>) -> (r: Result<Vec<Order>, TrailerError>)
    ensures
        (r is Ok) <==> (spec_open_orders(raw.deep_view()) is Some),
        r matches Ok(v) ==> Some(v.deep_view()) == spec_open_orders(raw.deep_view()),
        r matches Err(e) ==> e is Generic,
{
    let ghost rs = raw.deep_view();
    let mut out: Vec<Order> = Vec::new();
    let mut i: usize = 0;
    proof {
        assert(rs.subrange(0, 0).len() == 0);
    }
    while i < raw.len()
        invariant
            0 <= i <= raw.len(),
            rs == raw.deep_view(),
            rs.len() == raw.len(),
            forall|k: int| 0 <= k < rs.len() ==> rs[k] == #[trigger] raw[k]@,
            spec_open_orders(rs.subrange(0, i as int)) == Some(out.deep_view()),
        decreases raw.len() - i,
    {
        let entry = &raw[i];
        let ghost prev = out.deep_view();
        proof {
            assert(rs.subrange(0, i + 1).drop_last() =~= rs.subrange(0, i as int));
            assert(rs.subrange(0, i + 1).last() == rs[i as int]);
        }
        let qty = match Decimal::parse(entry.executed_qty.as_str()) {
            Some(d) => d,
            None => {
                proof {
                    lemma_open_orders_some_iff(rs);
                }
                return Err(TrailerError::Generic("unparsable order quantity".to_owned()));
            },
        };
        let price = match Decimal::parse(entry.orig_qty.as_str()) {
            Some(d) => d,
            None => {
                proof {
                    lemma_open_orders_some_iff(rs);
                }
                return Err(TrailerError::Generic("unparsable order quantity".to_owned()));
            },
        };
        let buy = str_eq(entry.side.as_str(), "Buy");
        out.push(
            Order {
                id: entry.order_id.clone(),
                symbol: entry.symbol.clone(),
                order_type: TradeType::is_buy(buy),
                qty,
                price,
            },
        );
        proof {
            assert(out.deep_view() =~= prev.push(spec_order_of(rs[i as int])->Some_0));
        }
        i = i + 1;
    }
    proof {
        assert(rs.subrange(0, rs.len() as int) =~= rs);
    }
    Ok(out)
}

/// The fully resolved trade one raw history entry normalizes to, given the
/// symbol/base split of the requested pair string; the pair carries the
/// trade's own price.
pub open spec fn spec_trade_of(sb: (Seq<char>, Seq<char>), rt: RawTradeModel) -> TradeModel {
    TradeModel {
        id: rt.id,
        time: rt.time,
        pair: PairModel { symbol: sb.0, base: sb.1, price: rt.price },
        trade_type: if rt.is_buyer {
            TradeType::Buy
        } else {
            TradeType::Sell
        },
        qty: rt.qty,
        price: rt.price,
    }
}

/// Normalize a raw Binance trade history into fully resolved trades: the
/// requested pair string is split once against the base list and every entry
/// carries the resolved pair at its own price. Fails with
/// `BasePairNotFound` when the pair string matches no base.
pub fn _trades_for(symbol: &str, raw: &Vec<RawTrade>) -> (r: Result<Vec<Trade>, TrailerError>)
    ensures
        (r is Ok) <==> (spec_split(symbol@, spec_base_pairs()) is Some),
        r matches Ok(v) ==> v.deep_view() == raw.deep_view().map_values(
            |rt: RawTradeModel| spec_trade_of(spec_split(symbol@, spec_base_pairs())->Some_0, rt),
        ),
        r matches Err(e) ==> e is BasePairNotFound,
{
    let bases = base_pairs();
    let (sym, base) = match split_symbol_and_base(symbol, &bases) {
        Ok(sb) => sb,
        Err(e) => {
            return Err(e);
        },
    };
    let ghost rs = raw.deep_view();
    let ghost sb = spec_split(symbol@, spec_base_pairs())->Some_0;
    let mut out: Vec<Trade> = Vec::new();
    let mut i: usize = 0;
    while i < raw.len()
        invariant
            0 <= i <= raw.len(),
            rs == raw.deep_view(),
            rs.len() == raw.len(),
            forall|k: int| 0 <= k < rs.len() ==> rs[k] == #[trigger] raw[k]@,
            sym@ == sb.0,
            base@ == sb.1,
            out.len() == i,
            forall|k: int|
                0 <= k < i ==> out.deep_view()[k] == spec_trade_of(sb, #[trigger] rs[k]),
        decreases raw.len() - i,
    {
        let entry = &raw[i];
        out.push(
            Trade {
                id: entry.id.clone(),
                time: entry.time,
                pair: Pair { symbol: sym.clone(), base: base.clone(), price: entry.price },
                trade_type: TradeType::is_buy(entry.is_buyer),
                qty: entry.qty,
                price: entry.price,
            },
        );
        i = i + 1;
    }
    proof {
        assert(out.deep_view() =~= rs.map_values(|rt: RawTradeModel| spec_trade_of(sb, rt)));
    }
    Ok(out)
}

/// Normalize a raw Binance trade history for an already resolved pair: every
/// entry carries that pair unchanged, at the pair's own price.
pub fn trades_for_pair(pair: &Pair, raw: &Vec<RawTrade>) -> (r: Vec<Trade>)
    ensures
        r.deep_view() == raw.deep_view().map_values(
            |rt: RawTradeModel| TradeModel {
                id: rt.id,
                time: rt.time,
                pair: pair@,
                trade_type: if rt.is_buyer {
                    TradeType::Buy
                } else {
                    TradeType::Sell
                },
                qty: rt.qty,
                price: rt.price,
            },
        ),
{
    let ghost rs = raw.deep_view();
    let mut out: Vec<Trade> = Vec::new();
    let mut i: usize = 0;
    while i < raw.len()
        invariant
            0 <= i <= raw.len(),
            rs == raw.deep_view(),
            rs.len() == raw.len(),
            forall|k: int| 0 <= k < rs.len() ==> rs[k] == #[trigger] raw[k]@,
            out.len() == i,
            forall|k: int|
                0 <= k < i ==> out.deep_view()[k] == (TradeModel {
                    id: (#[trigger] rs[k]).id,
                    time: rs[k].time,
                    pair: pair@,
                    trade_type: if rs[k].is_buyer {
                        TradeType::Buy
                    } else {
                        TradeType::Sell
                    },
                    qty: rs[k].qty,
                    price: rs[k].price,
                }),
        decreases raw.len() - i,
    {
        let entry = &raw[i];
        out.push(
            Trade {
                id: entry.id.clone(),
                time: entry.time,
                pair: Pair {
                    symbol: pair.symbol.clone(),
                    base: pair.base.clone(),
                    price: pair.price,
                },
                trade_type: TradeType::is_buy(entry.is_buyer),
                qty: entry.qty,
                price: entry.price,
            },
        );
        i = i + 1;
    }
    proof {
        assert(out.deep_view() =~= rs.map_values(
            |rt: RawTradeModel| TradeModel {
                id: rt.id,
                time: rt.time,
                pair: pair@,
                trade_type: if rt.is_buyer {
                    TradeType::Buy
                } else {
                    TradeType::Sell
                },
                qty: rt.qty,
                price: rt.price,
            },
        ));
    }
    out
}

/// Reshape a raw Binance trade history into the order view: each entry keeps
/// the requested symbol string and its own quantity and price.
pub fn trades_for(symbol: &str, raw: &Vec<RawTrade>) -> (r: Vec<Order>)
    ensures
        r.deep_view() == raw.deep_view().map_values(
            |rt: RawTradeModel| OrderModel {
                id: rt.id,
                symbol: symbol@,
                order_type: if rt.is_buyer {
                    TradeType::Buy
                } else {
                    TradeType::Sell
                },
                qty: rt.qty,
                price: rt.price,
            },
        ),
{
    let ghost rs = raw.deep_view();
    let mut out: Vec<Order> = Vec::new();
    let mut i: usize = 0;
    while i < raw.len()
        invariant
            0 <= i <= raw.len(),
            rs == raw.deep_view(),
            rs.len() == raw.len(),
            forall|k: int| 0 <= k < rs.len() ==> rs[k] == #[trigger] raw[k]@,
            out.len() == i,
            forall|k: int|
                0 <= k < i ==> out.deep_view()[k] == (OrderModel {
                    id: (#[trigger] rs[k]).id,
                    symbol: symbol@,
                    order_type: if rs[k].is_buyer {
                        TradeType::Buy
                    } else {
                        TradeType::Sell
                    },
                    qty: rs[k].qty,
                    price: rs[k].price,
                }),
        decreases raw.len() - i,
    {
        let entry = &raw[i];
        out.push(
            Order {
                id: entry.id.clone(),
                symbol: symbol.to_owned(),
                order_type: TradeType::is_buy(entry.is_buyer),
                qty: entry.qty,
                price: entry.price,
            },
        );
        i = i + 1;
    }
    proof {
        assert(out.deep_view() =~= rs.map_values(
            |rt: RawTradeModel| OrderModel {
                id: rt.id,
                symbol: symbol@,
                order_type: if rt.is_buyer {
                    TradeType::Buy
                } else {
                    TradeType::Sell
                },
                qty: rt.qty,
                price: rt.price,
            },
        ));
    }
    out
}

/// Normalize a raw Binance klines response into candlesticks, keeping the
/// exchange's chronological order.
pub fn chart_data(raw: &Vec<RawKline>) -> (r: Vec<Candlestick>)
    ensures
        r.deep_view() == raw.deep_view().map_values(
            |k: RawKlineModel| CandlestickModel {
                open_time: k.open_time,
                open_price: k.open_price,
                close_price: k.close_price,
                high_price: k.high_price,
                low_price: k.low_price,
                volume: k.volume,
                number_of_trades: k.trades,
            },
        ),
{
    let ghost rs = raw.deep_view();
    let mut out: Vec<Candlestick> = Vec::new();
    let mut i: usize = 0;
    while i < raw.len()
        invariant
            0 <= i <= raw.len(),
            rs == raw.deep_view(),
            rs.len() == raw.len(),
            forall|k: int| 0 <= k < rs.len() ==> rs[k] == #[trigger] raw[k]@,
            out.len() == i,
            forall|k: int|
                0 <= k < i ==> out.deep_view()[k] == (CandlestickModel {
                    open_time: (#[trigger] rs[k]).open_time,
                    open_price: rs[k].open_price,
                    close_price: rs[k].close_price,
                    high_price: rs[k].high_price,
                    low_price: rs[k].low_price,
                    volume: rs[k].volume,
                    number_of_trades: rs[k].trades,
                }),
        decreases raw.len() - i,
    {
        let entry = &raw[i];
        out.push(
            Candlestick {
                open_time: entry.open_time,
                open_price: entry.open_price,
                close_price: entry.close_price,
                high_price: entry.high_price,
                low_price: entry.low_price,
                volume: entry.volume,
                number_of_trades: entry.trades,
            },
        );
        i = i + 1;
    }
    proof {
        assert(out.deep_view() =~= rs.map_values(
            |k: RawKlineModel| CandlestickModel {
                open_time: k.open_time,
                open_price: k.open_price,
                close_price: k.close_price,
                high_price: k.high_price,
                low_price: k.low_price,
                volume: k.volume,
                number_of_trades: k.trades,
            },
        ));
    }
    out
}

/// Binance's adapter does not support stop-loss orders: the operation always
/// reports `Unsupported`, never a network failure or a crash.
#[allow(unused_variables)]
pub fn stop_loss(
    symbol: &str,
    amount: Decimal,
    stop_price: Decimal,
    limit_price: Decimal,
) -> (r: Result<(), TrailerError>)
    ensures
        r matches Err(e) && e is Unsupported,
{
    Err(TrailerError::Unsupported)
}

/// Binance's adapter does not offer past-order history: the operation always
/// reports `Unsupported`.
pub fn past_orders() -> (r: Result<Vec<Order>, TrailerError>)
    ensures
        r matches Err(e) && e is Unsupported,
{
    Err(TrailerError::Unsupported)
}

/// Parse a raw Binance pair string and wrap it with the given price.
pub fn string_to_pair(pair: String, price: Decimal) -> (r: Result<Pair, TrailerError>)
    ensures
        (r is Ok) <==> (spec_split(pair@, spec_base_pairs()) is Some),
        r matches Ok(p) ==> spec_split(pair@, spec_base_pairs()) == Some((p@.symbol, p@.base))
            && p@.price == price@,
        r matches Err(e) ==> e is BasePairNotFound,
{
    let bases = base_pairs();
    match split_symbol_and_base(pair.as_str(), &bases) {
        Ok((symbol, base)) => Ok(Pair { symbol, base, price }),
        Err(e) => Err(e),
    }
}

} // verus!

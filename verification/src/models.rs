//! Canonical domain value types shared by every exchange adapter, with the
//! mathematical models their contracts speak of.
use vstd::prelude::*;

use crate::decimal::Decimal;
use crate::exchanges::Exchange;

verus! {

/// Whether an order or a trade bought or sold the traded asset.
#[derive(Debug, Clone, Copy, PartialEq, Eq, Structural)]
pub enum TradeType {
    Buy,
    Sell,
}

impl TradeType {
    /// `Buy` exactly when the exchange marked the record as a buy.
    pub fn is_buy(buy: bool) -> (r: TradeType)
        ensures
            r == (if buy {
                TradeType::Buy
            } else {
                TradeType::Sell
            }),
    {
        if buy {
            TradeType::Buy
        } else {
            TradeType::Sell
        }
    }
}

/// A trading instrument split into the traded symbol and the base (quote)
/// currency it is priced in.
#[derive(Debug, Clone, PartialEq)]
pub struct Pair {
    pub symbol: String,
    pub base: String,
    pub price: Decimal,
}

pub ghost struct PairModel {
    pub symbol: Seq<char>,
    pub base: Seq<char>,
    pub price: nat,
}

impl View for Pair {
    type V = PairModel;

    open spec fn view(&self) -> PairModel {
        PairModel { symbol: self.symbol@, base: self.base@, price: self.price@ }
    }
}

impl DeepView for Pair {
    type V = PairModel;

    open spec fn deep_view(&self) -> PairModel {
        self@
    }
}

/// One account balance on one exchange. `amount` is the full holding,
/// free plus locked.
#[derive(Debug, Clone, PartialEq)]
pub struct Asset {
    pub symbol: String,
    pub amount: Decimal,
    pub locked: Decimal,
    pub exchange: Exchange,
}

pub ghost struct AssetModel {
    pub symbol: Seq<char>,
    pub amount: nat,
    pub locked: nat,
    pub exchange: Exchange,
}

impl View for Asset {
    type V = AssetModel;

    open spec fn view(&self) -> AssetModel {
        AssetModel {
            symbol: self.symbol@,
            amount: self.amount@,
            locked: self.locked@,
            exchange: self.exchange,
        }
    }
}

impl DeepView for Asset {
    type V = AssetModel;

    open spec fn deep_view(&self) -> AssetModel {
        self@
    }
}

/// A resting or historical buy/sell instruction; trade history is also
/// reshaped into this form when callers only need the order view.
#[derive(Debug, Clone, PartialEq)]
pub struct Order {
    pub id: String,
    pub symbol: String,
    pub order_type: TradeType,
    pub qty: Decimal,
    pub price: Decimal,
}

pub ghost struct OrderModel {
    pub id: Seq<char>,
    pub symbol: Seq<char>,
    pub order_type: TradeType,
    pub qty: nat,
    pub price: nat,
}

impl View for Order {
    type V = OrderModel;

    open spec fn view(&self) -> OrderModel {
        OrderModel {
            id: self.id@,
            symbol: self.symbol@,
            order_type: self.order_type,
            qty: self.qty@,
            price: self.price@,
        }
    }
}

impl DeepView for Order {
    type V = OrderModel;

    open spec fn deep_view(&self) -> OrderModel {
        self@
    }
}

/// An executed fill, always carrying a fully resolved [`Pair`]. `time` is a
/// unix timestamp in milliseconds as the exchange reported it.
#[derive(Debug, Clone, PartialEq)]
pub struct Trade {
    pub id: String,
    pub time: i64,
    pub pair: Pair,
    pub trade_type: TradeType,
    pub qty: Decimal,
    pub price: Decimal,
}

pub ghost struct TradeModel {
    pub id: Seq<char>,
    pub time: i64,
    pub pair: PairModel,
    pub trade_type: TradeType,
    pub qty: nat,
    pub price: nat,
}

impl View for Trade {
    type V = TradeModel;

    open spec fn view(&self) -> TradeModel {
        TradeModel {
            id: self.id@,
            time: self.time,
            pair: self.pair@,
            trade_type: self.trade_type,
            qty: self.qty@,
            price: self.price@,
        }
    }
}

impl DeepView for Trade {
    type V = TradeModel;

    open spec fn deep_view(&self) -> TradeModel {
        self@
    }
}

/// One fixed-interval OHLCV bucket, in the chronological order the exchange
/// returned it.
#[derive(Debug, Clone, PartialEq)]
pub struct Candlestick {
    pub open_time: i32,
    pub open_price: Decimal,
    pub close_price: Decimal,
    pub high_price: Decimal,
    pub low_price: Decimal,
    pub volume: Decimal,
    pub number_of_trades: u64,
}

pub ghost struct CandlestickModel {
    pub open_time: i32,
    pub open_price: nat,
    pub close_price: nat,
    pub high_price: nat,
    pub low_price: nat,
    pub volume: nat,
    pub number_of_trades: u64,
}

impl View for Candlestick {
    type V = CandlestickModel;

    open spec fn view(&self) -> CandlestickModel {
        CandlestickModel {
            open_time: self.open_time,
            open_price: self.open_price@,
            close_price: self.close_price@,
            high_price: self.high_price@,
            low_price: self.low_price@,
            volume: self.volume@,
            number_of_trades: self.number_of_trades,
        }
    }
}

impl DeepView for Candlestick {
    type V = CandlestickModel;

    open spec fn deep_view(&self) -> CandlestickModel {
        self@
    }
}

/// First pair in `ps` whose symbol/base combination matches `{a, b}` in
/// either order.
pub open spec fn spec_find_pair(ps: Seq<PairModel>, a: Seq<char>, b: Seq<char>) -> Option<
    PairModel,
>
    decreases ps.len(),
{
    if ps.len() == 0 {
        None
    } else if (ps[0].symbol == a && ps[0].base == b) || (ps[0].symbol == b && ps[0].base == a) {
        Some(ps[0])
    } else {
        spec_find_pair(ps.drop_first(), a, b)
    }
}

/// Scan `pairs` for the first entry whose symbol/base combination matches
/// `{symbol, base}` in either order.
pub fn find_pair_by_symbol_and_base(symbol: &str, base: &str, pairs: Vec<Pair>) -> (r: Option<
    Pair,
>)
    ensures
        r.deep_view() == spec_find_pair(pairs.deep_view(), symbol@, base@),
{
    let ghost ps = pairs.deep_view();
    proof {
        assert(ps.subrange(0, ps.len() as int) =~= ps);
    }
    let mut i: usize = 0;
    while i < pairs.len()
        invariant
            0 <= i <= pairs.len(),
            ps == pairs.deep_view(),
            ps.len() == pairs.len(),
            forall|k: int| 0 <= k < ps.len() ==> ps[k] == #[trigger] pairs[k]@,
            spec_find_pair(ps, symbol@, base@) == spec_find_pair(
                ps.subrange(i as int, ps.len() as int),
                symbol@,
                base@,
            ),
        decreases pairs.len() - i,
    {
        let p = &pairs[i];
        let hit = (str_eq(p.symbol.as_str(), symbol) && str_eq(p.base.as_str(), base)) || (str_eq(
            p.symbol.as_str(),
            base,
        ) && str_eq(p.base.as_str(), symbol));
        proof {
            assert(ps.subrange(i as int, ps.len() as int)[0] == ps[i as int]);
            assert(ps.subrange(i as int, ps.len() as int).drop_first() =~= ps.subrange(
                i + 1,
                ps.len() as int,
            ));
        }
        if hit {
            return Some(Pair { symbol: p.symbol.clone(), base: p.base.clone(), price: p.price });
        }
        i = i + 1;
    }
    proof {
        assert(ps.subrange(ps.len() as int, ps.len() as int).len() == 0);
    }
    None
}

/// Whether two string slices hold the same characters.
pub fn str_eq(a: &str, b: &str) -> (r: bool)
    ensures
        r == (a@ == b@),
{
    let x = a.to_owned();
    let y = b.to_owned();
    x == y
}

} // verus!

//! Venues, symbols, quotes and the messages that flow between the feeds,
//! the normalizer, the strategy and the store.

use vstd::prelude::*;

use crate::decimal::Dec;

verus! {

/// A trading venue.
#[derive(Clone, Copy, Debug, PartialEq, Eq, Structural, Hash)]
pub enum Exchange {
    Binance,
    Bybit,
    Upbit,
    Bithumb,
}

/// A traded asset.
#[derive(Clone, Copy, Debug, PartialEq, Eq, Structural, Hash)]
pub enum Symbol {
    BTC,
    ETH,
    SOL,
    XRP,
}

/// The currency a venue quotes in.
#[derive(Clone, Copy, Debug, PartialEq, Eq, Structural)]
pub enum QuoteCurrency {
    USDT,
    KRW,
}

/// Where an exchange rate came from.
#[derive(Clone, Copy, Debug, PartialEq, Eq, Structural)]
pub enum RateSource {
    Implied,
    Cryprice,
    External,
    Yahoo,
    Bok,
}

/// The display name of a venue.
pub open spec fn exchange_name(e: Exchange) -> Seq<char> {
    match e {
        Exchange::Binance => seq!['B', 'i', 'n', 'a', 'n', 'c', 'e'],
        Exchange::Bybit => seq!['B', 'y', 'b', 'i', 't'],
        Exchange::Upbit => seq!['U', 'p', 'b', 'i', 't'],
        Exchange::Bithumb => seq!['B', 'i', 't', 'h', 'u', 'm', 'b'],
    }
}

/// The display name of a symbol.
pub open spec fn symbol_name(s: Symbol) -> Seq<char> {
    match s {
        Symbol::BTC => seq!['B', 'T', 'C'],
        Symbol::ETH => seq!['E', 'T', 'H'],
        Symbol::SOL => seq!['S', 'O', 'L'],
        Symbol::XRP => seq!['X', 'R', 'P'],
    }
}

/// Position of a venue in the scan order Binance, Bybit, Upbit, Bithumb.
pub open spec fn exchange_index(e: Exchange) -> int {
    match e {
        Exchange::Binance => 0,
        Exchange::Bybit => 1,
        Exchange::Upbit => 2,
        Exchange::Bithumb => 3,
    }
}

/// The venue at a position of the scan order.
pub open spec fn exchange_at(i: int) -> Exchange {
    if i == 0 {
        Exchange::Binance
    } else if i == 1 {
        Exchange::Bybit
    } else if i == 2 {
        Exchange::Upbit
    } else {
        Exchange::Bithumb
    }
}

/// Position of a symbol in the order BTC, ETH, SOL, XRP.
pub open spec fn symbol_index(s: Symbol) -> int {
    match s {
        Symbol::BTC => 0,
        Symbol::ETH => 1,
        Symbol::SOL => 2,
        Symbol::XRP => 3,
    }
}

/// The symbol at a position of the order BTC, ETH, SOL, XRP.
pub open spec fn symbol_at(i: int) -> Symbol {
    if i == 0 {
        Symbol::BTC
    } else if i == 1 {
        Symbol::ETH
    } else if i == 2 {
        Symbol::SOL
    } else {
        Symbol::XRP
    }
}

/// The slot of a (venue, symbol) key in a table of 16 entries.
pub open spec fn slot(e: Exchange, s: Symbol) -> int {
    exchange_index(e) * 4 + symbol_index(s)
}

/// Every slot belongs to exactly one key.
pub proof fn lemma_slot_bijective(e1: Exchange, s1: Symbol, e2: Exchange, s2: Symbol)
    ensures
        0 <= slot(e1, s1) < 16,
        slot(e1, s1) == slot(e2, s2) <==> (e1 == e2 && s1 == s2),
        exchange_at(exchange_index(e1)) == e1,
        symbol_at(symbol_index(s1)) == s1,
{
}

/// The entries of a table keyed by slot, as one optional entry per slot.
pub open spec fn slot_entries<V>(m: Map<usize, V>) -> Seq<Option<V>> {
    Seq::new(
        16,
        |i: int|
            if m.contains_key(i as usize) {
                Some(m[i as usize])
            } else {
                None
            },
    )
}

/// The slot of a key, as an index.
pub fn slot_of(e: Exchange, s: Symbol) -> (r: usize)
    ensures
        r == slot(e, s),
        r < 16,
{
    let ei: usize = match e {
        Exchange::Binance => 0,
        Exchange::Bybit => 1,
        Exchange::Upbit => 2,
        Exchange::Bithumb => 3,
    };
    let si: usize = match s {
        Symbol::BTC => 0,
        Symbol::ETH => 1,
        Symbol::SOL => 2,
        Symbol::XRP => 3,
    };
    ei * 4 + si
}

/// The venue at a position of the scan order.
pub fn exchange_at_index(i: usize) -> (r: Exchange)
    requires
        i < 4,
    ensures
        r == exchange_at(i as int),
{
    if i == 0 {
        Exchange::Binance
    } else if i == 1 {
        Exchange::Bybit
    } else if i == 2 {
        Exchange::Upbit
    } else {
        Exchange::Bithumb
    }
}

/// All symbols, in the order BTC, ETH, SOL, XRP.
pub fn all_symbols() -> (r: [Symbol; 4])
    ensures
        r@ == seq![Symbol::BTC, Symbol::ETH, Symbol::SOL, Symbol::XRP],
{
    [Symbol::BTC, Symbol::ETH, Symbol::SOL, Symbol::XRP]
}

impl Exchange {
    /// The venue's name as displayed ("Binance", "Bybit", "Upbit", "Bithumb").
    pub fn name(&self) -> (r: &'static str)
        ensures
            r@ == exchange_name(*self),
    {
        proof {
            reveal_strlit("Binance");
            reveal_strlit("Bybit");
            reveal_strlit("Upbit");
            reveal_strlit("Bithumb");
        }
        match self {
            Exchange::Binance => "Binance",
            Exchange::Bybit => "Bybit",
            Exchange::Upbit => "Upbit",
            Exchange::Bithumb => "Bithumb",
        }
    }

    /// The taker fee rate: 0.0010 on Binance and Bybit, 0.0025 on Upbit and Bithumb.
    pub fn taker_fee(&self) -> (r: Dec)
        ensures
            r@ == (match self {
                Exchange::Binance | Exchange::Bybit => (10int, 4nat),
                Exchange::Upbit | Exchange::Bithumb => (25int, 4nat),
            }),
    {
        match self {
            Exchange::Binance | Exchange::Bybit => Dec::new(10, 4),
            Exchange::Upbit | Exchange::Bithumb => Dec::new(25, 4),
        }
    }

    /// The quote currency: USDT on Binance and Bybit, KRW on Upbit and Bithumb.
    pub fn quote_currency(&self) -> (r: QuoteCurrency)
        ensures
            r == (match self {
                Exchange::Binance | Exchange::Bybit => QuoteCurrency::USDT,
                Exchange::Upbit | Exchange::Bithumb => QuoteCurrency::KRW,
            }),
    {
        match self {
            Exchange::Binance | Exchange::Bybit => QuoteCurrency::USDT,
            Exchange::Upbit | Exchange::Bithumb => QuoteCurrency::KRW,
        }
    }
}

impl Symbol {
    /// The symbol's name as displayed ("BTC", "ETH", "SOL", "XRP").
    pub fn name(&self) -> (r: &'static str)
        ensures
            r@ == symbol_name(*self),
    {
        proof {
            reveal_strlit("BTC");
            reveal_strlit("ETH");
            reveal_strlit("SOL");
            reveal_strlit("XRP");
        }
        match self {
            Symbol::BTC => "BTC",
            Symbol::ETH => "ETH",
            Symbol::SOL => "SOL",
            Symbol::XRP => "XRP",
        }
    }
}

/// A venue's best bid and ask in its own quote currency. Timestamps are
/// nanoseconds since the epoch.
#[derive(Clone, Copy, Debug)]
pub struct Ticker {
    pub exchange: Exchange,
    pub symbol: Symbol,
    pub best_bid: Dec,
    pub best_bid_qty: Dec,
    pub best_ask: Dec,
    pub best_ask_qty: Dec,
    pub quote_currency: QuoteCurrency,
    pub timestamp: i128,
    pub local_timestamp: i128,
}

/// A quote converted to USD.
#[derive(Clone, Copy, Debug)]
pub struct NormalizedTicker {
    pub exchange: Exchange,
    pub symbol: Symbol,
    pub best_bid_usd: Dec,
    pub best_bid_qty: Dec,
    pub best_ask_usd: Dec,
    pub best_ask_qty: Dec,
    pub raw_bid: Dec,
    pub raw_ask: Dec,
    pub quote_currency: QuoteCurrency,
    pub exchange_rate: Option<Dec>,
    pub timestamp: i128,
    pub local_timestamp: i128,
}

/// KRW, USDT and USD cross rates.
#[derive(Clone, Copy, Debug)]
pub struct ExchangeRate {
    pub krw_per_usdt: Dec,
    pub usdt_per_usd: Dec,
    pub krw_per_usd: Dec,
    pub source: RateSource,
    pub timestamp: i128,
}

/// A detected cross-venue opportunity: buy on one venue, sell on another.
#[derive(Clone, Copy, Debug)]
pub struct ArbitrageSignal {
    pub buy_exchange: Exchange,
    pub sell_exchange: Exchange,
    pub symbol: Symbol,
    pub gross_spread_pct: Dec,
    pub net_spread_pct: Dec,
    pub max_qty: Dec,
    pub estimated_profit_usd: Dec,
    pub buy_price_usd: Dec,
    pub sell_price_usd: Dec,
    pub vwap_buy_usd: Dec,
    pub vwap_sell_usd: Dec,
    pub vwap_spread_pct: Dec,
    pub mid_spread_pct: Dec,
    pub timestamp: i128,
}

/// Connection state of a feed.
#[derive(Clone, Copy, Debug)]
pub struct FeedStatus {
    pub exchange: Exchange,
    pub connected: bool,
    pub last_update: Option<i128>,
    pub stale: bool,
}

/// One level of an order book.
#[derive(Clone, Copy, Debug)]
pub struct PriceLevel {
    pub price: Dec,
    pub qty: Dec,
}

/// An order book snapshot of up to five levels a side; bids high to low,
/// asks low to high.
#[derive(Clone, Debug)]
pub struct OrderBookUpdate {
    pub exchange: Exchange,
    pub symbol: Symbol,
    pub bids: Vec<PriceLevel>,
    pub asks: Vec<PriceLevel>,
    pub quote_currency: QuoteCurrency,
    pub timestamp: i128,
}

} // verus!

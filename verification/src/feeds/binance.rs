//! Binance: combined book-ticker and five-level depth streams, and the
//! stablecoin pair's book ticker that prices USDT in USD.

use vstd::prelude::*;

use crate::config::{EngineConfig, UsdtUsdExchange};
use crate::decimal::{dec_lit, o_div, spec_add, Dec};
use crate::feeds::bybit::parse_levels;
use crate::feeds::{dec_of_text, first_n, parsed_levels, FeedError};
use crate::models::{Exchange, OrderBookUpdate, PriceLevel, QuoteCurrency, Symbol, Ticker};
use crate::text::{
    ascii_upper, before_first, contains, lowercase_of, occurs_at, prefix_before, str_eq, to_uppercase,
    uppercase_of,
};

verus! {

/// The combined-stream endpoint.
pub open spec fn ws_url() -> Seq<char> {
    "wss://stream.binance.com:9443/stream"@
}

/// Binance's (lower-case) stream pair name of a symbol.
pub open spec fn binance_pair(s: Symbol) -> Seq<char> {
    match s {
        Symbol::BTC => "btcusdt"@,
        Symbol::ETH => "ethusdt"@,
        Symbol::SOL => "solusdt"@,
        Symbol::XRP => "xrpusdt"@,
    }
}

/// The symbol an upper-case pair name denotes.
pub open spec fn binance_symbol(upper: Seq<char>) -> Option<Symbol> {
    if upper == "BTCUSDT"@ {
        Some(Symbol::BTC)
    } else if upper == "ETHUSDT"@ {
        Some(Symbol::ETH)
    } else if upper == "SOLUSDT"@ {
        Some(Symbol::SOL)
    } else if upper == "XRPUSDT"@ {
        Some(Symbol::XRP)
    } else {
        None
    }
}

/// The stream pair name of a symbol.
pub fn symbol_to_pair(s: &Symbol) -> (r: &'static str)
    ensures
        r@ == binance_pair(*s),
{
    match s {
        Symbol::BTC => "btcusdt",
        Symbol::ETH => "ethusdt",
        Symbol::SOL => "solusdt",
        Symbol::XRP => "xrpusdt",
    }
}

/// The symbol of a pair name, compared in upper case.
pub fn pair_to_symbol(pair: &str) -> (r: Option<Symbol>)
    ensures
        r == binance_symbol(uppercase_of(pair@)),
{
    let upper = to_uppercase(pair);
    let u = upper.as_str();
    if str_eq(u, "BTCUSDT") {
        Some(Symbol::BTC)
    } else if str_eq(u, "ETHUSDT") {
        Some(Symbol::ETH)
    } else if str_eq(u, "SOLUSDT") {
        Some(Symbol::SOL)
    } else if str_eq(u, "XRPUSDT") {
        Some(Symbol::XRP)
    } else {
        None
    }
}

/// The symbol a stream name (`pair@kind...`) is about: its part before the
/// first `@`, as a pair name.
pub fn stream_to_symbol(stream: &str) -> (r: Option<Symbol>)
    ensures
        r == binance_symbol(uppercase_of(prefix_before(stream@, '@'))),
{
    let pair = before_first(stream, '@');
    pair_to_symbol(pair)
}

/// The prefix before a character of a text that does not hold it, followed
/// by more text, is that text.
proof fn lemma_prefix_before_concat(a: Seq<char>, b: Seq<char>, c: char)
    requires
        forall|i: int| 0 <= i < a.len() ==> a[i] != c,
    ensures
        prefix_before(a + b, c) == a + prefix_before(b, c),
    decreases a.len(),
{
    if a.len() == 0 {
        assert(a + b =~= b);
        assert(a + prefix_before(b, c) =~= prefix_before(b, c));
    } else {
        lemma_prefix_before_concat(a.drop_first(), b, c);
        assert((a + b).drop_first() =~= a.drop_first() + b);
        assert(seq![a[0]] + (a.drop_first() + prefix_before(b, c)) =~= a + prefix_before(b, c));
    }
}

/// Each symbol's pair name, upper-cased, maps back to the symbol; so does a
/// stream name made of the pair name and an `@`-suffix.
pub proof fn lemma_pair_roundtrip(s: Symbol, suffix: Seq<char>)
    requires
        suffix.len() > 0,
        suffix[0] == '@',
    ensures
        binance_symbol(binance_pair(s).map_values(|c: char| ascii_upper(c))) == Some(s),
        prefix_before(binance_pair(s) + suffix, '@') == binance_pair(s),
{
    reveal_strlit("btcusdt");
    reveal_strlit("ethusdt");
    reveal_strlit("solusdt");
    reveal_strlit("xrpusdt");
    reveal_strlit("BTCUSDT");
    reveal_strlit("ETHUSDT");
    reveal_strlit("SOLUSDT");
    reveal_strlit("XRPUSDT");
    assert("BTCUSDT"@[0] != "ETHUSDT"@[0]);
    assert("BTCUSDT"@[0] != "SOLUSDT"@[0]);
    assert("BTCUSDT"@[0] != "XRPUSDT"@[0]);
    assert("ETHUSDT"@[0] != "SOLUSDT"@[0]);
    assert("ETHUSDT"@[0] != "XRPUSDT"@[0]);
    assert("SOLUSDT"@[0] != "XRPUSDT"@[0]);
    let p = binance_pair(s);
    match s {
        Symbol::BTC => {
            assert(p.map_values(|c: char| ascii_upper(c)) =~= "BTCUSDT"@);
        },
        Symbol::ETH => {
            assert(p.map_values(|c: char| ascii_upper(c)) =~= "ETHUSDT"@);
        },
        Symbol::SOL => {
            assert(p.map_values(|c: char| ascii_upper(c)) =~= "SOLUSDT"@);
        },
        Symbol::XRP => {
            assert(p.map_values(|c: char| ascii_upper(c)) =~= "XRPUSDT"@);
        },
    }
    lemma_prefix_before_concat(p, suffix, '@');
    assert(prefix_before(suffix, '@') =~= Seq::<char>::empty());
    assert(p + Seq::<char>::empty() =~= p);
}

/// The texts joined with `sep` between them.
pub open spec fn join_with(parts: Seq<Seq<char>>, sep: Seq<char>) -> Seq<char>
    decreases parts.len(),
{
    if parts.len() == 0 {
        Seq::empty()
    } else if parts.len() == 1 {
        parts[0]
    } else {
        join_with(parts.drop_last(), sep) + sep + parts.last()
    }
}

/// The streams subscribed to: book ticker and depth of every symbol, and
/// the stablecoin pair's book ticker when Binance supplies USD per USDT.
pub open spec fn subscribed_streams(config: EngineConfig) -> Seq<Seq<char>> {
    let base = seq![
        binance_pair(Symbol::BTC) + "@bookTicker"@,
        binance_pair(Symbol::BTC) + "@depth5@100ms"@,
        binance_pair(Symbol::ETH) + "@bookTicker"@,
        binance_pair(Symbol::ETH) + "@depth5@100ms"@,
        binance_pair(Symbol::SOL) + "@bookTicker"@,
        binance_pair(Symbol::SOL) + "@depth5@100ms"@,
        binance_pair(Symbol::XRP) + "@bookTicker"@,
        binance_pair(Symbol::XRP) + "@depth5@100ms"@,
    ];
    if config.usdt_usd_exchange == UsdtUsdExchange::Binance {
        base.push(lowercase_of(config.usdt_usd_pair@) + "@bookTicker"@)
    } else {
        base
    }
}

/// The combined-stream URL to connect to.
pub open spec fn stream_url_spec(config: EngineConfig) -> Seq<char> {
    ws_url() + "?streams="@ + join_with(subscribed_streams(config), "/"@)
}

fn concat(a: &str, b: &str) -> (r: String)
    ensures
        r@ == a@ + b@,
{
    let mut s = a.to_owned();
    s.append(b);
    s
}

/// The combined-stream URL for the configuration.
pub fn stream_url(config: &EngineConfig) -> (r: String)
    ensures
        r@ == stream_url_spec(*config),
{
    let mut streams: Vec<String> = Vec::new();
    streams.push(concat(symbol_to_pair(&Symbol::BTC), "@bookTicker"));
    streams.push(concat(symbol_to_pair(&Symbol::BTC), "@depth5@100ms"));
    streams.push(concat(symbol_to_pair(&Symbol::ETH), "@bookTicker"));
    streams.push(concat(symbol_to_pair(&Symbol::ETH), "@depth5@100ms"));
    streams.push(concat(symbol_to_pair(&Symbol::SOL), "@bookTicker"));
    streams.push(concat(symbol_to_pair(&Symbol::SOL), "@depth5@100ms"));
    streams.push(concat(symbol_to_pair(&Symbol::XRP), "@bookTicker"));
    streams.push(concat(symbol_to_pair(&Symbol::XRP), "@depth5@100ms"));
    if config.usdt_usd_exchange == UsdtUsdExchange::Binance {
        let lower = config.usdt_pair_lower();
        streams.push(concat(lower.as_str(), "@bookTicker"));
    }
    let ghost parts = subscribed_streams(*config);
    proof {
        assert(streams@.map_values(|s: String| s@) =~= parts);
    }
    let mut url = concat("wss://stream.binance.com:9443/stream", "?streams=");
    let ghost head = url@;
    let mut i: usize = 0;
    while i < streams.len()
        invariant
            i <= streams@.len(),
            parts == streams@.map_values(|s: String| s@),
            url@ == head + join_with(parts.subrange(0, i as int), "/"@),
        decreases streams@.len() - i,
    {
        let ghost before = url@;
        if i > 0 {
            url.append("/");
        }
        url.append(streams[i].as_str());
        proof {
            let pre = parts.subrange(0, i + 1);
            assert(pre.drop_last() =~= parts.subrange(0, i as int));
            assert(pre.last() == streams@[i as int]@);
            if i == 0 {
                assert(parts.subrange(0, 0) =~= Seq::<Seq<char>>::empty());
                assert(head + Seq::<char>::empty() =~= head);
            }
            assert(url@ =~= head + join_with(pre, "/"@));
        }
        i += 1;
    }
    proof {
        assert(parts.subrange(0, streams@.len() as int) =~= parts);
    }
    url
}

/// How a message is handled, by its `stream` field (`None` where the
/// message has none).
#[derive(Clone, Copy, Debug, PartialEq, Eq, Structural)]
pub enum Route {
    /// A depth snapshot (the stream name holds `@depth5`).
    Depth,
    /// A book ticker in the combined envelope (the name holds `@bookTicker`).
    BookTicker,
    /// Any other combined stream: ignored.
    Other,
    /// No envelope: the message is a bare book ticker.
    Direct,
}

/// The route of a message with the given `stream` field.
pub open spec fn route_spec(stream: Option<Seq<char>>) -> Route {
    match stream {
        None => Route::Direct,
        Some(s) => if exists|i: int| occurs_at(s, "@depth5"@, i) {
            Route::Depth
        } else if exists|i: int| occurs_at(s, "@bookTicker"@, i) {
            Route::BookTicker
        } else {
            Route::Other
        },
    }
}

/// The route of a message with the given `stream` field.
pub fn route(stream: Option<&str>) -> (r: Route)
    ensures
        r == route_spec(match stream {
            Some(s) => Some(s@),
            None => None,
        }),
{
    match stream {
        None => Route::Direct,
        Some(s) => if contains(s, "@depth5") {
            Route::Depth
        } else if contains(s, "@bookTicker") {
            Route::BookTicker
        } else {
            Route::Other
        },
    }
}

/// The book of a depth snapshot on `stream`: the first five bid and ask
/// levels that parse; `None` where the stream names no known symbol.
pub fn depth_update(stream: &str, bids: &Vec<(String, String)>, asks: &Vec<(String, String)>, now: i128) -> (r:
    Option<OrderBookUpdate>)
    ensures
        match binance_symbol(uppercase_of(prefix_before(stream@, '@'))) {
            None => r is None,
            Some(symbol) => r matches Some(ob) && ob.exchange == Exchange::Binance && ob.symbol == symbol
                && ob.quote_currency == QuoteCurrency::USDT && ob.timestamp == now && ob.bids@ == parsed_levels(
                first_n(bids@, 5),
            ) && ob.asks@ == parsed_levels(first_n(asks@, 5)),
        },
{
    let symbol = stream_to_symbol(stream)?;
    Some(OrderBookUpdate {
        exchange: Exchange::Binance,
        symbol,
        bids: parse_levels(bids, 5),
        asks: parse_levels(asks, 5),
        quote_currency: QuoteCurrency::USDT,
        timestamp: now,
    })
}

/// A book ticker: pair name, best bid and ask with quantities, as text.
#[derive(Clone, Debug)]
pub struct BookTicker {
    pub s: String,
    pub b: String,
    pub bq: String,
    pub a: String,
    pub aq: String,
}

/// What a book ticker calls for.
#[derive(Clone, Copy, Debug)]
pub enum BookTickerAction {
    /// Update USD per USDT from this mid price of the stablecoin pair.
    UsdtMid(Dec),
    /// Publish this quote.
    Quote(Ticker),
    /// Nothing (the stablecoin pair's mid is zero).
    Nothing,
}

/// The action for a book ticker: for the configured stablecoin pair (when
/// Binance supplies it), its mid `(bid + ask) / 2` unless zero; otherwise
/// the symbol's quote. Errors where a number does not parse, the pair is
/// unknown, or the mid overflows.
pub open spec fn book_ticker_spec(bt: BookTicker, config: EngineConfig, now: i128) -> Result<BookTickerAction, FeedError> {
    if config.usdt_usd_exchange == UsdtUsdExchange::Binance && uppercase_of(bt.s@) == config.usdt_usd_pair@ {
        match (dec_of_text(bt.b@), dec_of_text(bt.a@)) {
            (Some(bid), Some(ask)) => match o_div(spec_add(bid, ask), Some(dec_lit(2, 0))) {
                None => Err(FeedError::Overflow),
                Some(mid) => if mid@.0 == 0 {
                    Ok(BookTickerAction::Nothing)
                } else {
                    Ok(BookTickerAction::UsdtMid(mid))
                },
            },
            _ => Err(FeedError::BadNumber),
        }
    } else {
        match binance_symbol(uppercase_of(bt.s@)) {
            None => Err(FeedError::UnknownSymbol),
            Some(symbol) => match (dec_of_text(bt.b@), dec_of_text(bt.bq@), dec_of_text(bt.a@), dec_of_text(bt.aq@)) {
                (Some(b), Some(bq), Some(a), Some(aq)) => Ok(
                    BookTickerAction::Quote(
                        Ticker {
                            exchange: Exchange::Binance,
                            symbol,
                            best_bid: b,
                            best_bid_qty: bq,
                            best_ask: a,
                            best_ask_qty: aq,
                            quote_currency: QuoteCurrency::USDT,
                            timestamp: now,
                            local_timestamp: now,
                        },
                    ),
                ),
                _ => Err(FeedError::BadNumber),
            },
        }
    }
}

/// Handles a book ticker received at `now`.
pub fn handle_book_ticker(bt: &BookTicker, config: &EngineConfig, now: i128) -> (r: Result<BookTickerAction, FeedError>)
    ensures
        r == book_ticker_spec(*bt, *config, now),
{
    let upper = to_uppercase(bt.s.as_str());
    if config.usdt_usd_exchange == UsdtUsdExchange::Binance && str_eq(upper.as_str(), config.usdt_usd_pair.as_str()) {
        let bid = match Dec::parse(bt.b.as_str()) {
            Some(d) => d,
            None => {
                return Err(FeedError::BadNumber);
            },
        };
        let ask = match Dec::parse(bt.a.as_str()) {
            Some(d) => d,
            None => {
                return Err(FeedError::BadNumber);
            },
        };
        let sum = match bid.checked_add(ask) {
            Some(x) => x,
            None => {
                return Err(FeedError::Overflow);
            },
        };
        let mid = match sum.checked_div(Dec::two()) {
            Some(x) => x,
            None => {
                return Err(FeedError::Overflow);
            },
        };
        if !mid.is_zero() {
            return Ok(BookTickerAction::UsdtMid(mid));
        }
        return Ok(BookTickerAction::Nothing);
    }
    let symbol = match pair_to_symbol(bt.s.as_str()) {
        Some(s) => s,
        None => {
            return Err(FeedError::UnknownSymbol);
        },
    };
    let b = Dec::parse(bt.b.as_str());
    let bq = Dec::parse(bt.bq.as_str());
    let a = Dec::parse(bt.a.as_str());
    let aq = Dec::parse(bt.aq.as_str());
    match (b, bq, a, aq) {
        (Some(b), Some(bq), Some(a), Some(aq)) => Ok(BookTickerAction::Quote(Ticker {
            exchange: Exchange::Binance,
            symbol,
            best_bid: b,
            best_bid_qty: bq,
            best_ask: a,
            best_ask_qty: aq,
            quote_currency: QuoteCurrency::USDT,
            timestamp: now,
            local_timestamp: now,
        })),
        _ => Err(FeedError::BadNumber),
    }
}

} // verus!

//! Bybit spot: five-level order book messages.

use vstd::prelude::*;

use crate::decimal::Dec;
use crate::feeds::{
    dec_of_text, first_n, lemma_first_n_head, lemma_first_parsed_level, outcome_is, parsed_levels, FeedError,
    QuoteAndBook,
};
use crate::models::{all_symbols, symbol_at, Exchange, OrderBookUpdate, PriceLevel, QuoteCurrency, Symbol, Ticker};
use crate::text::{occurs_at, starts_with, str_eq};

verus! {

/// Bybit's pair name of a symbol.
pub open spec fn bybit_pair(s: Symbol) -> Seq<char> {
    match s {
        Symbol::BTC => "BTCUSDT"@,
        Symbol::ETH => "ETHUSDT"@,
        Symbol::SOL => "SOLUSDT"@,
        Symbol::XRP => "XRPUSDT"@,
    }
}

/// The symbol a Bybit pair name denotes.
pub open spec fn bybit_symbol(pair: Seq<char>) -> Option<Symbol> {
    if pair == "BTCUSDT"@ {
        Some(Symbol::BTC)
    } else if pair == "ETHUSDT"@ {
        Some(Symbol::ETH)
    } else if pair == "SOLUSDT"@ {
        Some(Symbol::SOL)
    } else if pair == "XRPUSDT"@ {
        Some(Symbol::XRP)
    } else {
        None
    }
}

/// The pair name of a symbol.
pub fn symbol_to_pair(s: &Symbol) -> (r: &'static str)
    ensures
        r@ == bybit_pair(*s),
{
    match s {
        Symbol::BTC => "BTCUSDT",
        Symbol::ETH => "ETHUSDT",
        Symbol::SOL => "SOLUSDT",
        Symbol::XRP => "XRPUSDT",
    }
}

/// The symbol of a pair name.
pub fn pair_to_symbol(pair: &str) -> (r: Option<Symbol>)
    ensures
        r == bybit_symbol(pair@),
{
    if str_eq(pair, "BTCUSDT") {
        Some(Symbol::BTC)
    } else if str_eq(pair, "ETHUSDT") {
        Some(Symbol::ETH)
    } else if str_eq(pair, "SOLUSDT") {
        Some(Symbol::SOL)
    } else if str_eq(pair, "XRPUSDT") {
        Some(Symbol::XRP)
    } else {
        None
    }
}

/// A symbol's pair name maps back to the symbol.
pub proof fn lemma_pair_roundtrip(s: Symbol)
    ensures
        bybit_symbol(bybit_pair(s)) == Some(s),
{
    reveal_strlit("BTCUSDT");
    reveal_strlit("ETHUSDT");
    reveal_strlit("SOLUSDT");
    reveal_strlit("XRPUSDT");
    assert("BTCUSDT"@[0] != "ETHUSDT"@[0]);
    assert("BTCUSDT"@[0] != "SOLUSDT"@[0]);
    assert("BTCUSDT"@[0] != "XRPUSDT"@[0]);
    assert("ETHUSDT"@[0] != "SOLUSDT"@[0]);
    assert("ETHUSDT"@[0] != "XRPUSDT"@[0]);
    assert("SOLUSDT"@[0] != "XRPUSDT"@[0]);
}

/// The topics subscribed to: `orderbook.5.<pair>` for every symbol.
pub fn subscription_topics() -> (r: Vec<String>)
    ensures
        r@.len() == 4,
        forall|i: int| 0 <= i < 4 ==> #[trigger] r@[i]@ == "orderbook.5."@ + bybit_pair(symbol_at(i)),
{
    let syms = all_symbols();
    let mut out: Vec<String> = Vec::new();
    let mut i: usize = 0;
    while i < 4
        invariant
            i <= 4,
            syms@ == seq![Symbol::BTC, Symbol::ETH, Symbol::SOL, Symbol::XRP],
            out@.len() == i,
            forall|k: int| 0 <= k < i ==> #[trigger] out@[k]@ == "orderbook.5."@ + bybit_pair(symbol_at(k)),
        decreases 4 - i,
    {
        let mut t = "orderbook.5.".to_owned();
        t.append(symbol_to_pair(&syms[i]));
        out.push(t);
        i += 1;
    }
    out
}

/// The first `limit` `[price, qty]` entries that parse, as levels.
pub fn parse_levels(raw: &Vec<(String, String)>, limit: usize) -> (r: Vec<PriceLevel>)
    ensures
        r@ == parsed_levels(first_n(raw@, limit as int)),
{
    let n = if limit < raw.len() {
        limit
    } else {
        raw.len()
    };
    let ghost src = first_n(raw@, limit as int);
    let mut out: Vec<PriceLevel> = Vec::new();
    let mut i: usize = 0;
    while i < n
        invariant
            n <= raw@.len(),
            src.len() == n,
            forall|k: int| 0 <= k < n ==> src[k] == raw@[k],
            i <= n,
            out@ == parsed_levels(src.subrange(0, i as int)),
        decreases n - i,
    {
        let (p, q) = &raw[i];
        match Dec::parse(p.as_str()) {
            Some(price) => match Dec::parse(q.as_str()) {
                Some(qty) => {
                    out.push(PriceLevel { price, qty });
                },
                None => {},
            },
            None => {},
        }
        proof {
            assert(src.subrange(0, i + 1).drop_last() =~= src.subrange(0, i as int));
            assert(src.subrange(0, i + 1).last() == raw@[i as int]);
        }
        i += 1;
    }
    proof {
        assert(src.subrange(0, n as int) =~= src);
    }
    out
}

/// The book data of a Bybit message: pair name, bids and asks as
/// `[price, qty]` texts, best first.
#[derive(Clone, Debug)]
pub struct BookData {
    pub s: String,
    pub b: Vec<(String, String)>,
    pub a: Vec<(String, String)>,
}

/// What a Bybit message yields: nothing (not a book topic, or an empty
/// side), or the best-level quote with the five-level book; an error where
/// data is missing, the pair unknown, or a best level does not parse.
pub open spec fn bybit_message_spec(topic: Option<String>, data: Option<BookData>, now: i128) -> Result<
    Option<QuoteAndBook>,
    FeedError,
> {
    match topic {
        None => Ok(None),
        Some(t) => if !occurs_at(t@, "orderbook."@, 0) {
            Ok(None)
        } else {
            match data {
                None => Err(FeedError::MissingField),
                Some(d) => match bybit_symbol(d.s@) {
                    None => Err(FeedError::UnknownSymbol),
                    Some(symbol) => if d.b@.len() == 0 || d.a@.len() == 0 {
                        Ok(None)
                    } else {
                        match (
                            dec_of_text(d.b@[0].0@),
                            dec_of_text(d.b@[0].1@),
                            dec_of_text(d.a@[0].0@),
                            dec_of_text(d.a@[0].1@),
                        ) {
                            (Some(bid), Some(bid_qty), Some(ask), Some(ask_qty)) => Ok(
                                Some(
                                    (
                                        Ticker {
                                            exchange: Exchange::Bybit,
                                            symbol,
                                            best_bid: bid,
                                            best_bid_qty: bid_qty,
                                            best_ask: ask,
                                            best_ask_qty: ask_qty,
                                            quote_currency: QuoteCurrency::USDT,
                                            timestamp: now,
                                            local_timestamp: now,
                                        },
                                        parsed_levels(first_n(d.b@, 5)),
                                        parsed_levels(first_n(d.a@, 5)),
                                    ),
                                ),
                            ),
                            _ => Err(FeedError::BadNumber),
                        }
                    },
                },
            }
        },
    }
}

/// The quote is the top of the book published with it: its best bid and ask,
/// with their quantities, are the first bid and ask levels.
pub proof fn lemma_quote_is_top_of_book(topic: Option<String>, data: Option<BookData>, now: i128)
    ensures
        bybit_message_spec(topic, data, now) matches Ok(Some((t, bids, asks))) ==> {
            &&& bids.len() > 0
            &&& asks.len() > 0
            &&& bids[0] == (PriceLevel { price: t.best_bid, qty: t.best_bid_qty })
            &&& asks[0] == (PriceLevel { price: t.best_ask, qty: t.best_ask_qty })
        },
{
    if let Ok(Some((t, bids, asks))) = bybit_message_spec(topic, data, now) {
        let d = data.unwrap();
        lemma_first_n_head(d.b@, 5);
        lemma_first_n_head(d.a@, 5);
        lemma_first_parsed_level(first_n(d.b@, 5));
        lemma_first_parsed_level(first_n(d.a@, 5));
    }
}

fn parse_field(s: &String) -> (r: Result<Dec, FeedError>)
    ensures
        match dec_of_text(s@) {
            Some(d) => r == Ok::<Dec, FeedError>(d),
            None => r == Err::<Dec, FeedError>(FeedError::BadNumber),
        },
{
    match Dec::parse(s.as_str()) {
        Some(d) => Ok(d),
        None => Err(FeedError::BadNumber),
    }
}

/// Handles a Bybit message (already decoded from JSON): for an
/// `orderbook.*` topic with data, the best bid and ask as a quote and the
/// first five levels a side as a book, stamped `now`.
pub fn handle_message(topic: Option<String>, data: Option<BookData>, now: i128) -> (r: Result<
    Option<(Ticker, OrderBookUpdate)>,
    FeedError,
>)
    ensures
        outcome_is(r, bybit_message_spec(topic, data, now)),
{
    let t = match &topic {
        Some(t) => t,
        None => {
            return Ok(None);
        },
    };
    if !starts_with(t.as_str(), "orderbook.") {
        return Ok(None);
    }
    let d = match data {
        Some(d) => d,
        None => {
            return Err(FeedError::MissingField);
        },
    };
    let symbol = match pair_to_symbol(d.s.as_str()) {
        Some(s) => s,
        None => {
            return Err(FeedError::UnknownSymbol);
        },
    };
    if d.b.len() == 0 || d.a.len() == 0 {
        return Ok(None);
    }
    let bid = parse_field(&d.b[0].0);
    let bid_qty = parse_field(&d.b[0].1);
    let ask = parse_field(&d.a[0].0);
    let ask_qty = parse_field(&d.a[0].1);
    let (best_bid, best_bid_qty, best_ask, best_ask_qty) = match (bid, bid_qty, ask, ask_qty) {
        (Ok(a), Ok(b), Ok(c), Ok(e)) => (a, b, c, e),
        _ => {
            return Err(FeedError::BadNumber);
        },
    };
    let ticker = Ticker {
        exchange: Exchange::Bybit,
        symbol,
        best_bid,
        best_bid_qty,
        best_ask,
        best_ask_qty,
        quote_currency: QuoteCurrency::USDT,
        timestamp: now,
        local_timestamp: now,
    };
    let book = OrderBookUpdate {
        exchange: Exchange::Bybit,
        symbol,
        bids: parse_levels(&d.b, 5),
        asks: parse_levels(&d.a, 5),
        quote_currency: QuoteCurrency::USDT,
        timestamp: now,
    };
    Ok(Some((ticker, book)))
}

} // verus!

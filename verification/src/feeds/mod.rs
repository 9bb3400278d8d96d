//! The per-venue message logic of the market-data feeds, shared level
//! parsing, and the error kinds of a feed message.

pub mod binance;
pub mod bithumb;
pub mod bybit;
pub mod connection;
pub mod session;
pub mod upbit;

use vstd::prelude::*;

use crate::decimal::{decimal_parse, lift, Dec};
use crate::models::{Exchange, OrderBookUpdate, PriceLevel, QuoteCurrency, Symbol, Ticker};

verus! {

/// Why a feed message was rejected.
#[derive(Clone, Copy, Debug, PartialEq, Eq, Structural)]
pub enum FeedError {
    /// A number did not parse as a decimal.
    BadNumber,
    /// A required field is missing.
    MissingField,
    /// The pair or market code names no known symbol.
    UnknownSymbol,
    /// A decimal operation overflowed.
    Overflow,
}

/// The decimal a text parses to.
pub open spec fn dec_of_text(s: Seq<char>) -> Option<Dec> {
    lift(decimal_parse(s))
}

/// A `[price, qty]` pair of texts as a level; `None` where either fails to parse.
pub open spec fn parsed_level(raw: (String, String)) -> Option<PriceLevel> {
    match (dec_of_text(raw.0@), dec_of_text(raw.1@)) {
        (Some(p), Some(q)) => Some(PriceLevel { price: p, qty: q }),
        _ => None,
    }
}

/// The levels that parse, in order.
pub open spec fn parsed_levels(raw: Seq<(String, String)>) -> Seq<PriceLevel>
    decreases raw.len(),
{
    if raw.len() == 0 {
        Seq::empty()
    } else {
        let prev = parsed_levels(raw.drop_last());
        match parsed_level(raw.last()) {
            Some(l) => prev.push(l),
            None => prev,
        }
    }
}

/// Where the first entry parses, its level comes first among the parsed ones.
proof fn lemma_first_parsed_level(raw: Seq<(String, String)>)
    requires
        raw.len() > 0,
        parsed_level(raw[0]) is Some,
    ensures
        parsed_levels(raw).len() > 0,
        Some(parsed_levels(raw)[0]) == parsed_level(raw[0]),
    decreases raw.len(),
{
    if raw.len() == 1 {
        assert(raw.drop_last() =~= Seq::<(String, String)>::empty());
        assert(parsed_levels(raw.drop_last()).len() == 0);
        assert(raw.last() == raw[0]);
    } else {
        let p = raw.drop_last();
        assert(p[0] == raw[0]);
        lemma_first_parsed_level(p);
        assert(parsed_levels(p).len() > 0);
    }
}

/// The first entry of the first `n` (for positive `n`) is the first entry.
proof fn lemma_first_n_head<T>(s: Seq<T>, n: int)
    requires
        s.len() > 0,
        n > 0,
    ensures
        first_n(s, n).len() > 0,
        first_n(s, n)[0] == s[0],
{
}

/// A quote with the bids and asks of its book, as a message yields them.
pub type QuoteAndBook = (Ticker, Seq<PriceLevel>, Seq<PriceLevel>);

/// `ob` is the book of `quote` with the given sides, stamped like the quote.
pub open spec fn book_is(ob: OrderBookUpdate, quote: Ticker, bids: Seq<PriceLevel>, asks: Seq<PriceLevel>) -> bool {
    &&& ob.exchange == quote.exchange
    &&& ob.symbol == quote.symbol
    &&& ob.quote_currency == quote.quote_currency
    &&& ob.timestamp == quote.timestamp
    &&& ob.bids@ == bids
    &&& ob.asks@ == asks
}

/// A message's result agrees with its specified outcome.
pub open spec fn outcome_is(
    r: Result<Option<(Ticker, OrderBookUpdate)>, FeedError>,
    m: Result<Option<QuoteAndBook>, FeedError>,
) -> bool {
    match (r, m) {
        (Ok(None), Ok(None)) => true,
        (Ok(Some((t, ob))), Ok(Some((mt, bids, asks)))) => t == mt && book_is(ob, mt, bids, asks),
        (Err(e), Err(me)) => e == me,
        _ => false,
    }
}

/// The first `n` items (all where there are fewer).
pub open spec fn first_n<T>(s: Seq<T>, n: int) -> Seq<T> {
    if n < s.len() {
        s.take(n)
    } else {
        s
    }
}

} // verus!

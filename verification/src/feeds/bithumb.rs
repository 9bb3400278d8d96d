//! Bithumb: order book snapshots, from which the best level is the quote.

use vstd::prelude::*;

use crate::decimal::Dec;
use crate::feeds::{dec_of_text, first_n, outcome_is, FeedError, QuoteAndBook};
use crate::models::{Exchange, OrderBookUpdate, PriceLevel, QuoteCurrency, Symbol, Ticker, all_symbols, symbol_at};
use crate::text::str_eq;

verus! {

/// Bithumb's market code of a symbol.
pub open spec fn bithumb_code(s: Symbol) -> Seq<char> {
    match s {
        Symbol::BTC => "KRW-BTC"@,
        Symbol::ETH => "KRW-ETH"@,
        Symbol::SOL => "KRW-SOL"@,
        Symbol::XRP => "KRW-XRP"@,
    }
}

/// The symbol a Bithumb market code denotes.
pub open spec fn bithumb_symbol(code: Seq<char>) -> Option<Symbol> {
    if code == "KRW-BTC"@ {
        Some(Symbol::BTC)
    } else if code == "KRW-ETH"@ {
        Some(Symbol::ETH)
    } else if code == "KRW-SOL"@ {
        Some(Symbol::SOL)
    } else if code == "KRW-XRP"@ {
        Some(Symbol::XRP)
    } else {
        None
    }
}

/// The market code of a symbol.
pub fn symbol_to_code(s: &Symbol) -> (r: &'static str)
    ensures
        r@ == bithumb_code(*s),
{
    match s {
        Symbol::BTC => "KRW-BTC",
        Symbol::ETH => "KRW-ETH",
        Symbol::SOL => "KRW-SOL",
        Symbol::XRP => "KRW-XRP",
    }
}

/// The market codes subscribed to, one per symbol in order.
pub fn subscription_codes() -> (r: Vec<String>)
    ensures
        r@.len() == 4,
        forall|i: int| 0 <= i < 4 ==> #[trigger] r@[i]@ == bithumb_code(symbol_at(i)),
{
    let syms = all_symbols();
    let mut out: Vec<String> = Vec::new();
    let mut i: usize = 0;
    while i < 4
        invariant
            i <= 4,
            syms@ == seq![Symbol::BTC, Symbol::ETH, Symbol::SOL, Symbol::XRP],
            out@.len() == i,
            forall|k: int| 0 <= k < i ==> #[trigger] out@[k]@ == bithumb_code(symbol_at(k)),
        decreases 4 - i,
    {
        out.push(symbol_to_code(&syms[i]).to_owned());
        i += 1;
    }
    out
}

/// The symbol of a market code.
pub fn code_to_symbol(code: &str) -> (r: Option<Symbol>)
    ensures
        r == bithumb_symbol(code@),
{
    if str_eq(code, "KRW-BTC") {
        Some(Symbol::BTC)
    } else if str_eq(code, "KRW-ETH") {
        Some(Symbol::ETH)
    } else if str_eq(code, "KRW-SOL") {
        Some(Symbol::SOL)
    } else if str_eq(code, "KRW-XRP") {
        Some(Symbol::XRP)
    } else {
        None
    }
}

/// A symbol's market code maps back to the symbol.
pub proof fn lemma_code_roundtrip(s: Symbol)
    ensures
        bithumb_symbol(bithumb_code(s)) == Some(s),
{
    reveal_strlit("KRW-BTC");
    reveal_strlit("KRW-ETH");
    reveal_strlit("KRW-SOL");
    reveal_strlit("KRW-XRP");
    assert("KRW-BTC"@[4] != "KRW-ETH"@[4]);
    assert("KRW-BTC"@[4] != "KRW-SOL"@[4]);
    assert("KRW-BTC"@[4] != "KRW-XRP"@[4]);
    assert("KRW-ETH"@[4] != "KRW-SOL"@[4]);
    assert("KRW-ETH"@[4] != "KRW-XRP"@[4]);
    assert("KRW-SOL"@[4] != "KRW-XRP"@[4]);
}

/// One order book unit: the ask and the bid as `(price, size)` texts, each
/// present only where both its price and size are positive.
#[derive(Clone, Debug)]
pub struct OrderbookUnit {
    pub ask: Option<(String, String)>,
    pub bid: Option<(String, String)>,
}

/// An order book message: its type, market code and units, or a status
/// (connection acknowledgement).
#[derive(Clone, Debug)]
pub struct OrderbookMsg {
    pub msg_type: Option<String>,
    pub code: Option<String>,
    pub orderbook_units: Option<Vec<OrderbookUnit>>,
    pub status: Option<String>,
}

/// Appends a `(price, size)` side to the levels; an error where either does
/// not parse.
pub open spec fn push_side(levels: Seq<PriceLevel>, side: Option<(String, String)>) -> Result<Seq<PriceLevel>, FeedError> {
    match side {
        None => Ok(levels),
        Some((p, q)) => match dec_of_text(p@) {
            None => Err(FeedError::BadNumber),
            Some(pd) => match dec_of_text(q@) {
                None => Err(FeedError::BadNumber),
                Some(qd) => Ok(levels.push(PriceLevel { price: pd, qty: qd })),
            },
        },
    }
}

/// The (asks, bids) collected from the units in order, ask before bid
/// within a unit.
pub open spec fn collect_sides(units: Seq<OrderbookUnit>) -> Result<(Seq<PriceLevel>, Seq<PriceLevel>), FeedError>
    decreases units.len(),
{
    if units.len() == 0 {
        Ok((Seq::empty(), Seq::empty()))
    } else {
        match collect_sides(units.drop_last()) {
            Err(e) => Err(e),
            Ok((asks, bids)) => match push_side(asks, units.last().ask) {
                Err(e) => Err(e),
                Ok(a2) => match push_side(bids, units.last().bid) {
                    Err(e) => Err(e),
                    Ok(b2) => Ok((a2, b2)),
                },
            },
        }
    }
}

/// What a Bithumb message yields: nothing for a status or a non-orderbook
/// message, no units, or an empty side; else the best levels as a quote and
/// the first five units' levels as the book.
pub open spec fn bithumb_message_spec(msg: OrderbookMsg, now: i128) -> Result<Option<QuoteAndBook>, FeedError> {
    if msg.status is Some {
        Ok(None)
    } else if !(msg.msg_type matches Some(t) && t@ == "orderbook"@) {
        Ok(None)
    } else {
        match msg.code {
            None => Err(FeedError::MissingField),
            Some(code) => match bithumb_symbol(code@) {
                None => Err(FeedError::UnknownSymbol),
                Some(symbol) => match msg.orderbook_units {
                    None => Err(FeedError::MissingField),
                    Some(units) => if units@.len() == 0 {
                        Ok(None)
                    } else {
                        match collect_sides(first_n(units@, 5)) {
                            Err(e) => Err(e),
                            Ok((asks, bids)) => if bids.len() == 0 || asks.len() == 0 {
                                Ok(None)
                            } else {
                                Ok(
                                    Some(
                                        (
                                            Ticker {
                                                exchange: Exchange::Bithumb,
                                                symbol,
                                                best_bid: bids[0].price,
                                                best_bid_qty: bids[0].qty,
                                                best_ask: asks[0].price,
                                                best_ask_qty: asks[0].qty,
                                                quote_currency: QuoteCurrency::KRW,
                                                timestamp: now,
                                                local_timestamp: now,
                                            },
                                            bids,
                                            asks,
                                        ),
                                    ),
                                )
                            },
                        }
                    },
                },
            },
        }
    }
}

/// The quote is the top of the book published with it: its best bid and ask,
/// with their quantities, are the first bid and ask levels.
pub proof fn lemma_quote_is_top_of_book(msg: OrderbookMsg, now: i128)
    ensures
        bithumb_message_spec(msg, now) matches Ok(Some((t, bids, asks))) ==> {
            &&& bids.len() > 0
            &&& asks.len() > 0
            &&& bids[0] == (PriceLevel { price: t.best_bid, qty: t.best_bid_qty })
            &&& asks[0] == (PriceLevel { price: t.best_ask, qty: t.best_ask_qty })
        },
{
}

fn push_side_exec(levels: &mut Vec<PriceLevel>, side: &Option<(String, String)>) -> (r: Result<(), FeedError>)
    ensures
        match push_side(old(levels)@, *side) {
            Ok(l) => r is Ok && final(levels)@ == l,
            Err(e) => r == Err::<(), FeedError>(e),
        },
{
    match side {
        None => Ok(()),
        Some((p, q)) => {
            let pd = match Dec::parse(p.as_str()) {
                Some(d) => d,
                None => {
                    return Err(FeedError::BadNumber);
                },
            };
            let qd = match Dec::parse(q.as_str()) {
                Some(d) => d,
                None => {
                    return Err(FeedError::BadNumber);
                },
            };
            levels.push(PriceLevel { price: pd, qty: qd });
            Ok(())
        },
    }
}

/// Handles a Bithumb order book message (already decoded from JSON, with
/// the float levels rendered as text).
pub fn handle_message(msg: OrderbookMsg, now: i128) -> (r: Result<Option<(Ticker, OrderBookUpdate)>, FeedError>)
    ensures
        outcome_is(r, bithumb_message_spec(msg, now)),
{
    proof {
        reveal_strlit("orderbook");
    }
    if msg.status.is_some() {
        return Ok(None);
    }
    let is_orderbook = match &msg.msg_type {
        Some(t) => str_eq(t.as_str(), "orderbook"),
        None => false,
    };
    if !is_orderbook {
        return Ok(None);
    }
    let code = match &msg.code {
        Some(c) => c,
        None => {
            return Err(FeedError::MissingField);
        },
    };
    let symbol = match code_to_symbol(code.as_str()) {
        Some(s) => s,
        None => {
            return Err(FeedError::UnknownSymbol);
        },
    };
    let units = match &msg.orderbook_units {
        Some(u) => u,
        None => {
            return Err(FeedError::MissingField);
        },
    };
    if units.len() == 0 {
        return Ok(None);
    }
    let n = if units.len() < 5 {
        units.len()
    } else {
        5
    };
    let ghost src = first_n(units@, 5);
    let mut asks: Vec<PriceLevel> = Vec::new();
    let mut bids: Vec<PriceLevel> = Vec::new();
    let mut i: usize = 0;
    while i < n
        invariant
            msg.status is None,
            msg.msg_type matches Some(t) && t@ == "orderbook"@,
            msg.code matches Some(c) && bithumb_symbol(c@) == Some(symbol),
            msg.orderbook_units == Some(*units),
            units@.len() > 0,
            src == first_n(units@, 5),
            n <= units@.len(),
            src.len() == n,
            forall|k: int| 0 <= k < n ==> src[k] == units@[k],
            i <= n,
            collect_sides(src.subrange(0, i as int)) == Ok::<(Seq<PriceLevel>, Seq<PriceLevel>), FeedError>(
                (asks@, bids@),
            ),
        decreases n - i,
    {
        proof {
            assert(src.subrange(0, i + 1).drop_last() =~= src.subrange(0, i as int));
            assert(src.subrange(0, i + 1).last() == units@[i as int]);
        }
        let u = &units[i];
        let ghost asks0 = asks@;
        let ghost bids0 = bids@;
        match push_side_exec(&mut asks, &u.ask) {
            Ok(()) => {},
            Err(e) => {
                proof {
                    assert(collect_sides(src.subrange(0, i + 1)) == Err::<(Seq<PriceLevel>, Seq<PriceLevel>), FeedError>(e));
                    lemma_collect_err_persists(src, (i + 1) as nat, n as nat);
                    assert(src.subrange(0, n as int) =~= src);
                }
                return Err(e);
            },
        }
        match push_side_exec(&mut bids, &u.bid) {
            Ok(()) => {},
            Err(e) => {
                proof {
                    assert(collect_sides(src.subrange(0, i + 1)) == Err::<(Seq<PriceLevel>, Seq<PriceLevel>), FeedError>(e));
                    lemma_collect_err_persists(src, (i + 1) as nat, n as nat);
                    assert(src.subrange(0, n as int) =~= src);
                }
                return Err(e);
            },
        }
        i += 1;
    }
    proof {
        assert(src.subrange(0, n as int) =~= src);
    }
    if bids.len() == 0 || asks.len() == 0 {
        return Ok(None);
    }
    let now_ticker = Ticker {
        exchange: Exchange::Bithumb,
        symbol,
        best_bid: bids[0].price,
        best_bid_qty: bids[0].qty,
        best_ask: asks[0].price,
        best_ask_qty: asks[0].qty,
        quote_currency: QuoteCurrency::KRW,
        timestamp: now,
        local_timestamp: now,
    };
    let book = OrderBookUpdate {
        exchange: Exchange::Bithumb,
        symbol,
        bids,
        asks,
        quote_currency: QuoteCurrency::KRW,
        timestamp: now,
    };
    Ok(Some((now_ticker, book)))
}

/// Once collecting the sides fails, it fails with the same error for any
/// longer prefix.
proof fn lemma_collect_err_persists(units: Seq<OrderbookUnit>, k: nat, m: nat)
    requires
        k <= m <= units.len(),
        collect_sides(units.subrange(0, k as int)) is Err,
    ensures
        collect_sides(units.subrange(0, m as int)) == collect_sides(units.subrange(0, k as int)),
    decreases m - k,
{
    if k < m {
        lemma_collect_err_persists(units, k, (m - 1) as nat);
        assert(units.subrange(0, m as int).drop_last() =~= units.subrange(0, m - 1));
    }
}

} // verus!

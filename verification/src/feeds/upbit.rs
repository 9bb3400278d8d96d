//! Upbit: order book messages, from which the best level is the quote.

use vstd::prelude::*;

use crate::decimal::Dec;
use crate::feeds::FeedError;
use crate::models::{Exchange, QuoteCurrency, Symbol, Ticker, all_symbols, symbol_at};
use crate::text::str_eq;

verus! {

/// Upbit's market code of a symbol.
pub open spec fn upbit_code(s: Symbol) -> Seq<char> {
    match s {
        Symbol::BTC => "KRW-BTC"@,
        Symbol::ETH => "KRW-ETH"@,
        Symbol::SOL => "KRW-SOL"@,
        Symbol::XRP => "KRW-XRP"@,
    }
}

/// The symbol an Upbit market code denotes.
pub open spec fn upbit_symbol(code: Seq<char>) -> Option<Symbol> {
    if code == "KRW-BTC"@ {
        Some(Symbol::BTC)
    } else if code == "KRW-ETH"@ {
        Some(Symbol::ETH)
    } else if code == "KRW-SOL"@ {
        Some(Symbol::SOL)
    } else if code == "KRW-XRP"@ {
        Some(Symbol::XRP)
    } else {
        None
    }
}

/// The market code of a symbol.
pub fn symbol_to_code(s: &Symbol) -> (r: &'static str)
    ensures
        r@ == upbit_code(*s),
{
    match s {
        Symbol::BTC => "KRW-BTC",
        Symbol::ETH => "KRW-ETH",
        Symbol::SOL => "KRW-SOL",
        Symbol::XRP => "KRW-XRP",
    }
}

/// The market codes subscribed to, one per symbol in order.
pub fn subscription_codes() -> (r: Vec<String>)
    ensures
        r@.len() == 4,
        forall|i: int| 0 <= i < 4 ==> #[trigger] r@[i]@ == upbit_code(symbol_at(i)),
{
    let syms = all_symbols();
    let mut out: Vec<String> = Vec::new();
    let mut i: usize = 0;
    while i < 4
        invariant
            i <= 4,
            syms@ == seq![Symbol::BTC, Symbol::ETH, Symbol::SOL, Symbol::XRP],
            out@.len() == i,
            forall|k: int| 0 <= k < i ==> #[trigger] out@[k]@ == upbit_code(symbol_at(k)),
        decreases 4 - i,
    {
        out.push(symbol_to_code(&syms[i]).to_owned());
        i += 1;
    }
    out
}

/// The symbol of a market code.
pub fn code_to_symbol(code: &str) -> (r: Option<Symbol>)
    ensures
        r == upbit_symbol(code@),
{
    if str_eq(code, "KRW-BTC") {
        Some(Symbol::BTC)
    } else if str_eq(code, "KRW-ETH") {
        Some(Symbol::ETH)
    } else if str_eq(code, "KRW-SOL") {
        Some(Symbol::SOL)
    } else if str_eq(code, "KRW-XRP") {
        Some(Symbol::XRP)
    } else {
        None
    }
}

/// A symbol's market code maps back to the symbol.
pub proof fn lemma_code_roundtrip(s: Symbol)
    ensures
        upbit_symbol(upbit_code(s)) == Some(s),
{
    reveal_strlit("KRW-BTC");
    reveal_strlit("KRW-ETH");
    reveal_strlit("KRW-SOL");
    reveal_strlit("KRW-XRP");
    assert("KRW-BTC"@[4] != "KRW-ETH"@[4]);
    assert("KRW-BTC"@[4] != "KRW-SOL"@[4]);
    assert("KRW-BTC"@[4] != "KRW-XRP"@[4]);
    assert("KRW-ETH"@[4] != "KRW-SOL"@[4]);
    assert("KRW-ETH"@[4] != "KRW-XRP"@[4]);
    assert("KRW-SOL"@[4] != "KRW-XRP"@[4]);
}

/// One order book unit: best ask and bid with sizes.
#[derive(Clone, Copy, Debug)]
pub struct OrderbookUnit {
    pub ask_price: Dec,
    pub ask_size: Dec,
    pub bid_price: Dec,
    pub bid_size: Dec,
}

/// What an Upbit message yields: the quote of the first unit; nothing when
/// there are no units; an error where the code or the units are missing or
/// the code is unknown. The short field names (`cd`, `obu`) take precedence
/// over the long ones.
pub open spec fn upbit_message_spec(
    cd: Option<String>,
    code: Option<String>,
    obu: Option<Vec<OrderbookUnit>>,
    orderbook_units: Option<Vec<OrderbookUnit>>,
    now: i128,
) -> Result<Option<Ticker>, FeedError> {
    let c = match cd {
        Some(x) => Some(x),
        None => code,
    };
    match c {
        None => Err(FeedError::MissingField),
        Some(c) => match upbit_symbol(c@) {
            None => Err(FeedError::UnknownSymbol),
            Some(symbol) => {
                let u = match obu {
                    Some(x) => Some(x),
                    None => orderbook_units,
                };
                match u {
                    None => Err(FeedError::MissingField),
                    Some(units) => if units@.len() == 0 {
                        Ok(None)
                    } else {
                        let best = units@[0];
                        Ok(
                            Some(
                                Ticker {
                                    exchange: Exchange::Upbit,
                                    symbol,
                                    best_bid: best.bid_price,
                                    best_bid_qty: best.bid_size,
                                    best_ask: best.ask_price,
                                    best_ask_qty: best.ask_size,
                                    quote_currency: QuoteCurrency::KRW,
                                    timestamp: now,
                                    local_timestamp: now,
                                },
                            ),
                        )
                    },
                }
            },
        },
    }
}

/// The Upbit quote is the top of the book: for a known market code and a
/// non-empty unit list, the message yields a quote whose bid and ask, with
/// their sizes, are those of the first unit, whatever the later units hold.
pub proof fn lemma_upbit_quote_is_top_of_book(
    cd: Option<String>,
    code: Option<String>,
    obu: Option<Vec<OrderbookUnit>>,
    orderbook_units: Option<Vec<OrderbookUnit>>,
    now: i128,
    units: Vec<OrderbookUnit>,
)
    requires
        cd is Some || code is Some,
        upbit_symbol(
            (match cd {
                Some(c) => c,
                None => code->0,
            })@,
        ) is Some,
        obu == Some(units) || (obu is None && orderbook_units == Some(units)),
        units@.len() > 0,
    ensures
        upbit_message_spec(cd, code, obu, orderbook_units, now) matches Ok(Some(t)) && {
            &&& t.exchange == Exchange::Upbit
            &&& t.best_bid == units@[0].bid_price
            &&& t.best_bid_qty == units@[0].bid_size
            &&& t.best_ask == units@[0].ask_price
            &&& t.best_ask_qty == units@[0].ask_size
            &&& t.quote_currency == QuoteCurrency::KRW
        },
{
}

/// Handles an Upbit order book message (already decoded from JSON).
pub fn handle_message(
    cd: Option<String>,
    code: Option<String>,
    obu: Option<Vec<OrderbookUnit>>,
    orderbook_units: Option<Vec<OrderbookUnit>>,
    now: i128,
) -> (r: Result<Option<Ticker>, FeedError>)
    ensures
        r == upbit_message_spec(cd, code, obu, orderbook_units, now),
        r matches Ok(Some(t)) ==> {
            let units = match obu {
                Some(u) => u,
                None => orderbook_units->0,
            };
            &&& units@.len() > 0
            &&& t.best_bid == units@[0].bid_price
            &&& t.best_bid_qty == units@[0].bid_size
            &&& t.best_ask == units@[0].ask_price
            &&& t.best_ask_qty == units@[0].ask_size
        },
{
    let c = match cd {
        Some(x) => x,
        None => match code {
            Some(x) => x,
            None => {
                return Err(FeedError::MissingField);
            },
        },
    };
    let symbol = match code_to_symbol(c.as_str()) {
        Some(s) => s,
        None => {
            return Err(FeedError::UnknownSymbol);
        },
    };
    let units = match obu {
        Some(x) => x,
        None => match orderbook_units {
            Some(x) => x,
            None => {
                return Err(FeedError::MissingField);
            },
        },
    };
    if units.len() == 0 {
        return Ok(None);
    }
    let best = units[0];
    Ok(Some(Ticker {
        exchange: Exchange::Upbit,
        symbol,
        best_bid: best.bid_price,
        best_bid_qty: best.bid_size,
        best_ask: best.ask_price,
        best_ask_qty: best.ask_size,
        quote_currency: QuoteCurrency::KRW,
        timestamp: now,
        local_timestamp: now,
    }))
}

} // verus!

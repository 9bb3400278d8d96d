//! Cross-venue opportunity detection: best-bid/offer spreads, depth-weighted
//! mid prices and VWAP execution estimates over five-level order books.

use vstd::prelude::*;

use std::collections::HashMap;

use crate::decimal::{
    dec_lit, lemma_model_le_total, lemma_model_le_transitive, model_le, model_lt, o_add, o_div, o_mul, spec_add, spec_div,
    spec_min, spec_mul, spec_sub, ArithmeticOverflow, Dec,
};
use crate::models::{
    exchange_at, exchange_at_index, exchange_index, lemma_slot_bijective, slot, slot_entries, slot_of, ArbitrageSignal, Exchange,
    NormalizedTicker, OrderBookUpdate, PriceLevel, Symbol,
};
use crate::time::{now_nanos, seconds_over, whole_seconds};

verus! {

broadcast use {vstd::seq_lib::group_seq_properties, vstd::std_specs::hash::group_hash_axioms};

// ── Specifications ───────────────────────────────────────────

/// The literal 100.
pub open spec fn hundred() -> Dec {
    dec_lit(100, 0)
}

/// Percentage spread of `hi` over `lo`: `(hi - lo) / lo * 100`; `None` where
/// an operation overflows.
pub open spec fn spread_pct(hi: Dec, lo: Dec) -> Option<Dec> {
    o_mul(o_div(spec_sub(hi, lo), Some(lo)), Some(hundred()))
}

/// Price levels sorted low to high.
pub open spec fn sorted_ascending(levels: Seq<PriceLevel>) -> bool {
    forall|i: int, j: int| 0 <= i < j < levels.len() ==> model_le(levels[i].price@, levels[j].price@)
}

/// Price levels sorted high to low.
pub open spec fn sorted_descending(levels: Seq<PriceLevel>) -> bool {
    forall|i: int, j: int| 0 <= i < j < levels.len() ==> model_le(levels[j].price@, levels[i].price@)
}

/// One step of the depth-weighted sums `(Σ price·to_usd·qty, Σ qty)`.
pub open spec fn weighted_step(acc: Option<(Dec, Dec)>, level: PriceLevel, to_usd: Dec) -> Option<(Dec, Dec)> {
    match acc {
        None => None,
        Some((pq, q)) => match (
            o_add(Some(pq), o_mul(spec_mul(level.price, to_usd), Some(level.qty))),
            spec_add(q, level.qty),
        ) {
            (Some(npq), Some(nq)) => Some((npq, nq)),
            _ => None,
        },
    }
}

/// `(Σ price·to_usd·qty, Σ qty)` over the levels, summed front to back;
/// `None` where an operation overflows.
pub open spec fn weighted_sums(levels: Seq<PriceLevel>, to_usd: Dec) -> Option<(Dec, Dec)>
    decreases levels.len(),
{
    if levels.len() == 0 {
        Some((dec_lit(0, 0), dec_lit(0, 0)))
    } else {
        weighted_step(weighted_sums(levels.drop_last(), to_usd), levels.last(), to_usd)
    }
}

/// Depth-weighted mid price: the mean of the quantity-weighted bid and ask
/// prices (in USD). Outer `None`: overflow; inner `None`: a side has zero
/// total quantity.
pub open spec fn depth_weighted_mid_spec(bids: Seq<PriceLevel>, asks: Seq<PriceLevel>, to_usd: Dec) -> Option<Option<Dec>> {
    match (weighted_sums(bids, to_usd), weighted_sums(asks, to_usd)) {
        (Some((bpq, bq)), Some((apq, aq))) => if bq@.0 == 0 || aq@.0 == 0 {
            Some(None)
        } else {
            match o_div(o_add(spec_div(bpq, bq), spec_div(apq, aq)), Some(dec_lit(2, 0))) {
                Some(m) => Some(Some(m)),
                None => None,
            }
        },
        _ => None,
    }
}

/// One step of walking asks while spending a USD budget. State:
/// (filled quantity, USD spent, budget exhausted).
pub open spec fn budget_step(acc: Option<(Dec, Dec, bool)>, level: PriceLevel, budget: Dec, to_usd: Dec) -> Option<(Dec, Dec, bool)> {
    match acc {
        None => None,
        Some((filled, spent, stopped)) => if stopped {
            acc
        } else {
            match spec_mul(level.price, to_usd) {
                None => None,
                Some(p) => if p@.0 == 0 {
                    acc
                } else {
                    match spec_sub(budget, spent) {
                        None => None,
                        Some(rem) => if model_le(rem@, (0, 0)) {
                            Some((filled, spent, true))
                        } else {
                            match spec_mul(level.qty, p) {
                                None => None,
                                Some(cost) => if model_le(rem@, cost@) {
                                    match o_add(Some(filled), spec_div(rem, p)) {
                                        Some(f) => Some((f, budget, false)),
                                        None => None,
                                    }
                                } else {
                                    match (spec_add(filled, level.qty), spec_add(spent, cost)) {
                                        (Some(f), Some(s)) => Some((f, s, false)),
                                        _ => None,
                                    }
                                },
                            }
                        },
                    }
                },
            }
        },
    }
}

/// The state after walking the levels front to back with `budget_step`.
pub open spec fn budget_walk(levels: Seq<PriceLevel>, budget: Dec, to_usd: Dec) -> Option<(Dec, Dec, bool)>
    decreases levels.len(),
{
    if levels.len() == 0 {
        Some((dec_lit(0, 0), dec_lit(0, 0), false))
    } else {
        budget_step(budget_walk(levels.drop_last(), budget, to_usd), levels.last(), budget, to_usd)
    }
}

/// One step of walking levels until a target quantity is filled. State:
/// (filled quantity, USD value, target reached).
pub open spec fn qty_step(acc: Option<(Dec, Dec, bool)>, level: PriceLevel, target: Dec, to_usd: Dec) -> Option<(Dec, Dec, bool)> {
    match acc {
        None => None,
        Some((filled, value, stopped)) => if stopped {
            acc
        } else {
            match spec_mul(level.price, to_usd) {
                None => None,
                Some(p) => if p@.0 == 0 {
                    acc
                } else {
                    match spec_sub(target, filled) {
                        None => None,
                        Some(rem) => if model_le(rem@, (0, 0)) {
                            Some((filled, value, true))
                        } else if model_le(rem@, level.qty@) {
                            match o_add(Some(value), spec_mul(rem, p)) {
                                Some(v) => Some((target, v, false)),
                                None => None,
                            }
                        } else {
                            match (spec_add(filled, level.qty), o_add(Some(value), spec_mul(level.qty, p))) {
                                (Some(f), Some(v)) => Some((f, v, false)),
                                _ => None,
                            }
                        },
                    }
                },
            }
        },
    }
}

/// The state after walking the levels front to back with `qty_step`.
pub open spec fn qty_walk(levels: Seq<PriceLevel>, target: Dec, to_usd: Dec) -> Option<(Dec, Dec, bool)>
    decreases levels.len(),
{
    if levels.len() == 0 {
        Some((dec_lit(0, 0), dec_lit(0, 0), false))
    } else {
        qty_step(qty_walk(levels.drop_last(), target, to_usd), levels.last(), target, to_usd)
    }
}

/// `(value / filled, filled)` of a finished walk; inner `None` when nothing was filled.
pub open spec fn vwap_of(walk: Option<(Dec, Dec, bool)>) -> Option<Option<(Dec, Dec)>> {
    match walk {
        None => None,
        Some((filled, value, _)) => if filled@.0 == 0 {
            Some(None)
        } else {
            match spec_div(value, filled) {
                Some(v) => Some(Some((v, filled))),
                None => None,
            }
        },
    }
}

/// VWAP (USD) and quantity of spending `budget` USD on the asks.
pub open spec fn vwap_take_asks_spec(asks: Seq<PriceLevel>, budget: Dec, to_usd: Dec) -> Option<Option<(Dec, Dec)>> {
    vwap_of(budget_walk(asks, budget, to_usd))
}

/// VWAP (USD) and quantity of taking up to `target` coins from the levels.
pub open spec fn vwap_take_qty_spec(levels: Seq<PriceLevel>, target: Dec, to_usd: Dec) -> Option<Option<(Dec, Dec)>> {
    vwap_of(qty_walk(levels, target, to_usd))
}

/// USD per unit of quote currency implied by a normalized quote; one when the
/// raw quote is zero.
pub open spec fn usd_factor(usd: Dec, raw: Dec) -> Option<Dec> {
    if raw@.0 != 0 {
        spec_div(usd, raw)
    } else {
        Some(dec_lit(1, 0))
    }
}

/// Both books have levels on both sides.
pub open spec fn books_deep(b: OrderBookUpdate, s: OrderBookUpdate) -> bool {
    b.bids@.len() > 0 && b.asks@.len() > 0 && s.bids@.len() > 0 && s.asks@.len() > 0
}

/// The depth-weighted mid spread between the books, falling back to the
/// best-bid/offer spread `bbo`.
pub open spec fn mid_spread_spec(
    bb: Option<OrderBookUpdate>,
    sb: Option<OrderBookUpdate>,
    buy_to_usd: Dec,
    sell_to_usd: Dec,
    bbo: Dec,
) -> Option<Dec> {
    match (bb, sb) {
        (Some(b), Some(s)) => if books_deep(b, s) {
            match (
                depth_weighted_mid_spec(b.bids@, b.asks@, buy_to_usd),
                depth_weighted_mid_spec(s.bids@, s.asks@, sell_to_usd),
            ) {
                (Some(bm), Some(sm)) => match (bm, sm) {
                    (Some(x), Some(y)) => if x@.0 != 0 {
                        spread_pct(y, x)
                    } else {
                        Some(bbo)
                    },
                    _ => Some(bbo),
                },
                _ => None,
            }
        } else {
            Some(bbo)
        },
        _ => Some(bbo),
    }
}

/// Execution estimate from the best bid/offer alone:
/// `(buy price, sell price, spread, quantity, profit)` where the quantity is
/// `min(trade / buy_ask, buy_qty, sell_qty)`.
pub open spec fn bbo_execution(trade: Dec, buy_ask: Dec, sell_bid: Dec, bbo: Dec, buy_qty: Dec, sell_qty: Dec) -> Option<(Dec, Dec, Dec, Dec, Dec)> {
    match spec_div(trade, buy_ask) {
        None => None,
        Some(q) => {
            let mq = spec_min(spec_min(q, buy_qty), sell_qty);
            match o_mul(Some(mq), spec_sub(sell_bid, buy_ask)) {
                Some(p) => Some((buy_ask, sell_bid, bbo, mq, p)),
                None => None,
            }
        },
    }
}

/// Execution estimate from the books: buy with the trade budget, sell what
/// was bought, re-price the buy when the sell side is shallower; `fb` where
/// the books cannot price it.
pub open spec fn vwap_execution(
    bb: Option<OrderBookUpdate>,
    sb: Option<OrderBookUpdate>,
    trade: Dec,
    buy_to_usd: Dec,
    sell_to_usd: Dec,
    fb: Option<(Dec, Dec, Dec, Dec, Dec)>,
    bbo: Dec,
) -> Option<(Dec, Dec, Dec, Dec, Dec)> {
    match (bb, sb) {
        (Some(b), Some(s)) => if b.asks@.len() == 0 || s.bids@.len() == 0 {
            fb
        } else {
            match vwap_take_asks_spec(b.asks@, trade, buy_to_usd) {
                None => None,
                Some(None) => fb,
                Some(Some((vb_full, qb))) => match vwap_take_qty_spec(s.bids@, qb, sell_to_usd) {
                    None => None,
                    Some(None) => fb,
                    Some(Some((vs, qs))) => {
                        let vbo = if model_lt(qs@, qb@) {
                            match vwap_take_qty_spec(b.asks@, qs, buy_to_usd) {
                                None => None,
                                Some(None) => Some(vb_full),
                                Some(Some((v, _))) => Some(v),
                            }
                        } else {
                            Some(vb_full)
                        };
                        match vbo {
                            None => None,
                            Some(vb) => {
                                let sp = if vb@.0 != 0 {
                                    spread_pct(vs, vb)
                                } else {
                                    Some(bbo)
                                };
                                match (sp, o_mul(Some(qs), spec_sub(vs, vb))) {
                                    (Some(spread), Some(p)) => Some((vb, vs, spread, qs, p)),
                                    _ => None,
                                }
                            },
                        }
                    },
                },
            }
        },
        _ => fb,
    }
}

/// The signal for buying on `buy_ex` (quote `bt`) and selling on `sell_ex`
/// (quote `st`). Outer `None`: an operation overflowed; inner `None`: no
/// signal (a quote is older than 3 s, the buy ask is zero, or the mid
/// spread is below `min`).
pub open spec fn pair_signal_spec(
    bt: NormalizedTicker,
    st: NormalizedTicker,
    bb: Option<OrderBookUpdate>,
    sb: Option<OrderBookUpdate>,
    buy_ex: Exchange,
    sell_ex: Exchange,
    symbol: Symbol,
    now: i128,
    trade: Dec,
    min: Dec,
) -> Option<Option<ArbitrageSignal>> {
    if whole_seconds(now, bt.local_timestamp) > 3 || whole_seconds(now, st.local_timestamp) > 3 {
        Some(None)
    } else if bt.best_ask_usd@.0 == 0 {
        Some(None)
    } else {
        let buy_ask = bt.best_ask_usd;
        let sell_bid = st.best_bid_usd;
        match spread_pct(sell_bid, buy_ask) {
            None => None,
            Some(bbo) => match (usd_factor(bt.best_ask_usd, bt.raw_ask), usd_factor(st.best_bid_usd, st.raw_bid)) {
                (Some(bf), Some(sf)) => {
                    let fb = bbo_execution(trade, buy_ask, sell_bid, bbo, bt.best_ask_qty, st.best_bid_qty);
                    match (mid_spread_spec(bb, sb, bf, sf, bbo), vwap_execution(bb, sb, trade, bf, sf, fb, bbo)) {
                        (Some(mid), Some((vb, vs, vsp, mq, p))) => if model_lt(mid@, min@) {
                            Some(None)
                        } else {
                            Some(Some(ArbitrageSignal {
                                buy_exchange: buy_ex,
                                sell_exchange: sell_ex,
                                symbol,
                                gross_spread_pct: bbo,
                                net_spread_pct: bbo,
                                max_qty: mq,
                                estimated_profit_usd: p,
                                buy_price_usd: buy_ask,
                                sell_price_usd: sell_bid,
                                vwap_buy_usd: vb,
                                vwap_sell_usd: vs,
                                vwap_spread_pct: vsp,
                                mid_spread_pct: mid,
                                timestamp: now,
                            }))
                        },
                        _ => None,
                    }
                },
                _ => None,
            },
        }
    }
}

/// The outcome of the `k`-th ordered venue pair (buy `k / 4`, sell `k % 4`).
pub open spec fn pair_outcome(
    tickers: Seq<Option<NormalizedTicker>>,
    books: Seq<Option<OrderBookUpdate>>,
    symbol: Symbol,
    now: i128,
    trade: Dec,
    min: Dec,
    k: int,
) -> Option<Option<ArbitrageSignal>> {
    let b = exchange_at(k / 4);
    let s = exchange_at(k % 4);
    if b == s {
        Some(None)
    } else {
        match (tickers[slot(b, symbol)], tickers[slot(s, symbol)]) {
            (Some(bt), Some(st)) => pair_signal_spec(
                bt,
                st,
                books[slot(b, symbol)],
                books[slot(s, symbol)],
                b,
                s,
                symbol,
                now,
                trade,
                min,
            ),
            _ => Some(None),
        }
    }
}

/// The signals of the first `k` ordered venue pairs; `None` where an
/// operation overflowed.
pub open spec fn scan_upto(
    tickers: Seq<Option<NormalizedTicker>>,
    books: Seq<Option<OrderBookUpdate>>,
    symbol: Symbol,
    now: i128,
    trade: Dec,
    min: Dec,
    k: nat,
) -> Option<Seq<ArbitrageSignal>>
    decreases k,
{
    if k == 0 {
        Some(Seq::empty())
    } else {
        match scan_upto(tickers, books, symbol, now, trade, min, (k - 1) as nat) {
            None => None,
            Some(prev) => match pair_outcome(tickers, books, symbol, now, trade, min, k - 1) {
                None => None,
                Some(None) => Some(prev),
                Some(Some(sig)) => Some(prev.push(sig)),
            },
        }
    }
}

/// What every emitted signal satisfies: distinct venues, the scanned symbol,
/// both quotes present and at most 3 s old, its prices taken from them, a
/// mid spread of at least `min`, stamped with the scan time.
pub open spec fn signal_justified(
    tickers: Seq<Option<NormalizedTicker>>,
    symbol: Symbol,
    now: i128,
    min: Dec,
    sig: ArbitrageSignal,
) -> bool {
    &&& sig.buy_exchange != sig.sell_exchange
    &&& sig.symbol == symbol
    &&& sig.timestamp == now
    &&& model_le(min@, sig.mid_spread_pct@)
    &&& sig.gross_spread_pct == sig.net_spread_pct
    &&& tickers[slot(sig.buy_exchange, symbol)] matches Some(bt) && {
        &&& whole_seconds(now, bt.local_timestamp) <= 3
        &&& bt.best_ask_usd == sig.buy_price_usd
        &&& bt.best_ask_usd@.0 != 0
    }
    &&& tickers[slot(sig.sell_exchange, symbol)] matches Some(st) && {
        &&& whole_seconds(now, st.local_timestamp) <= 3
        &&& st.best_bid_usd == sig.sell_price_usd
    }
}

/// Every signal that a scan emits is justified (see `signal_justified`).
pub proof fn lemma_scan_signals_justified(
    tickers: Seq<Option<NormalizedTicker>>,
    books: Seq<Option<OrderBookUpdate>>,
    symbol: Symbol,
    now: i128,
    trade: Dec,
    min: Dec,
    k: nat,
)
    requires
        k <= 16,
    ensures
        scan_upto(tickers, books, symbol, now, trade, min, k) matches Some(sigs) ==> forall|i: int|
            0 <= i < sigs.len() ==> signal_justified(tickers, symbol, now, min, #[trigger] sigs[i]),
    decreases k,
{
    if k > 0 {
        lemma_scan_signals_justified(tickers, books, symbol, now, trade, min, (k - 1) as nat);
        let j = k - 1;
        let b = exchange_at(j / 4);
        let s = exchange_at(j % 4);
        if let Some(Some(sig)) = pair_outcome(tickers, books, symbol, now, trade, min, j) {
            assert(b != s);
            assert(sig.buy_exchange == b && sig.sell_exchange == s);
            lemma_decimal_order_total(sig.mid_spread_pct@, min@);
            assert(signal_justified(tickers, symbol, now, min, sig));
        }
    }
}

/// Every ordered venue pair whose quotes yield a signal (see `pair_outcome`)
/// contributes it to the scan: no qualifying pair is skipped.
pub proof fn lemma_scan_complete(
    tickers: Seq<Option<NormalizedTicker>>,
    books: Seq<Option<OrderBookUpdate>>,
    symbol: Symbol,
    now: i128,
    trade: Dec,
    min: Dec,
    k: nat,
)
    requires
        k <= 16,
    ensures
        scan_upto(tickers, books, symbol, now, trade, min, k) matches Some(sigs) ==> forall|j: int|
            0 <= j < k ==> (#[trigger] pair_outcome(tickers, books, symbol, now, trade, min, j) matches Some(Some(sig))
                ==> sigs.contains(sig)),
    decreases k,
{
    if k > 0 {
        lemma_scan_complete(tickers, books, symbol, now, trade, min, (k - 1) as nat);
        if let Some(sigs) = scan_upto(tickers, books, symbol, now, trade, min, k) {
            let prev = scan_upto(tickers, books, symbol, now, trade, min, (k - 1) as nat)->0;
            assert forall|j: int|
                0 <= j < k implies (#[trigger] pair_outcome(tickers, books, symbol, now, trade, min, j) matches Some(
                Some(sig),
            ) ==> sigs.contains(sig)) by {
                if let Some(Some(sig)) = pair_outcome(tickers, books, symbol, now, trade, min, j) {
                    if j == k - 1 {
                        assert(sigs[sigs.len() - 1] == sig);
                    } else {
                        assert(prev.contains(sig));
                        let w = choose|w: int| 0 <= w < prev.len() && prev[w] == sig;
                        assert(sigs[w] == sig);
                    }
                }
            }
        }
    }
}

/// A scan finds nothing (and cannot overflow) while only one venue quotes
/// the symbol.
pub proof fn lemma_scan_lone_quote(
    tickers: Seq<Option<NormalizedTicker>>,
    books: Seq<Option<OrderBookUpdate>>,
    symbol: Symbol,
    now: i128,
    trade: Dec,
    min: Dec,
    only: Exchange,
    k: nat,
)
    requires
        k <= 16,
        forall|e: Exchange| e != only ==> (#[trigger] tickers[slot(e, symbol)]) is None,
    ensures
        scan_upto(tickers, books, symbol, now, trade, min, k) == Some(Seq::<ArbitrageSignal>::empty()),
    decreases k,
{
    if k > 0 {
        lemma_scan_lone_quote(tickers, books, symbol, now, trade, min, only, (k - 1) as nat);
        let j = k - 1;
        let b = exchange_at(j / 4);
        let s = exchange_at(j % 4);
        if b != s {
            if b != only {
                assert(tickers[slot(b, symbol)] is None);
            } else {
                assert(tickers[slot(s, symbol)] is None);
            }
        }
    }
}

/// Every ordered pair of distinct venues is scanned, in both directions and
/// whatever their place in the venue order: where buying on `b` and selling
/// on `s` has both quotes present and at most 3 s old, a nonzero ask on `b`,
/// no books for either, and a spread `(s.bid - b.ask) / b.ask × 100` of at
/// least the minimum, the scan emits a signal buying on `b` at its ask and
/// selling on `s` at its bid with that spread (unless some operation of the
/// scan overflows, in which case there is no result at all).
pub proof fn lemma_scan_finds_pair(
    e: ArbitrageEngine,
    symbol: Symbol,
    now: i128,
    b: Exchange,
    s: Exchange,
    diff: Dec,
    ratio: Dec,
    spread: Dec,
    affordable: Dec,
)
    requires
        b != s,
        e.ticker(b, symbol) is Some,
        e.ticker(s, symbol) is Some,
        e.book(b, symbol) is None,
        e.book(s, symbol) is None,
        whole_seconds(now, e.ticker(b, symbol)->0.local_timestamp) <= 3,
        whole_seconds(now, e.ticker(s, symbol)->0.local_timestamp) <= 3,
        e.ticker(b, symbol)->0.best_ask_usd@.0 != 0,
        spec_sub(e.ticker(s, symbol)->0.best_bid_usd, e.ticker(b, symbol)->0.best_ask_usd) == Some(diff),
        spec_div(diff, e.ticker(b, symbol)->0.best_ask_usd) == Some(ratio),
        spec_mul(ratio, dec_lit(100, 0)) == Some(spread),
        model_le(e.min_spread()@, spread@),
        e.ticker(b, symbol)->0.raw_ask@.0 == 0 || spec_div(
            e.ticker(b, symbol)->0.best_ask_usd,
            e.ticker(b, symbol)->0.raw_ask,
        ) is Some,
        e.ticker(s, symbol)->0.raw_bid@.0 == 0 || spec_div(
            e.ticker(s, symbol)->0.best_bid_usd,
            e.ticker(s, symbol)->0.raw_bid,
        ) is Some,
        spec_div(e.trade_amount(), e.ticker(b, symbol)->0.best_ask_usd) == Some(affordable),
        spec_mul(
            spec_min(
                spec_min(affordable, e.ticker(b, symbol)->0.best_ask_qty),
                e.ticker(s, symbol)->0.best_bid_qty,
            ),
            diff,
        ) is Some,
    ensures
        e.scan_spec(symbol, now) matches Some(sigs) ==> exists|i: int|
            0 <= i < sigs.len() && {
                let sig = #[trigger] sigs[i];
                &&& sig.buy_exchange == b
                &&& sig.sell_exchange == s
                &&& sig.symbol == symbol
                &&& sig.gross_spread_pct == spread
                &&& sig.mid_spread_pct == spread
                &&& sig.buy_price_usd == e.ticker(b, symbol)->0.best_ask_usd
                &&& sig.sell_price_usd == e.ticker(s, symbol)->0.best_bid_usd
            },
{
    let k = exchange_index(b) * 4 + exchange_index(s);
    assert(k / 4 == exchange_index(b) && k % 4 == exchange_index(s)) by {
        assert(0 <= exchange_index(s) < 4);
    }
    lemma_slot_bijective(b, symbol, s, symbol);
    assert(exchange_at(k / 4) == b && exchange_at(k % 4) == s);
    let bt = e.ticker(b, symbol)->0;
    let st = e.ticker(s, symbol)->0;
    assert(spread_pct(st.best_bid_usd, bt.best_ask_usd) == Some(spread));
    lemma_decimal_order_total(spread@, e.min_spread()@);
    let out = pair_outcome(e.tickers(), e.books(), symbol, now, e.trade_amount(), e.min_spread(), k);
    assert(out matches Some(Some(sig)) && {
        &&& sig.buy_exchange == b
        &&& sig.sell_exchange == s
        &&& sig.symbol == symbol
        &&& sig.gross_spread_pct == spread
        &&& sig.mid_spread_pct == spread
        &&& sig.buy_price_usd == bt.best_ask_usd
        &&& sig.sell_price_usd == st.best_bid_usd
    });
    lemma_scan_complete(e.tickers(), e.books(), symbol, now, e.trade_amount(), e.min_spread(), 16);
    if let Some(sigs) = e.scan_spec(symbol, now) {
        let sig = out->0->0;
        assert(sigs.contains(sig));
        let w = choose|w: int| 0 <= w < sigs.len() && sigs[w] == sig;
        assert(sigs[w] == sig);
    }
}

/// Two ladders of levels with the same quantities whose prices are worth the
/// same in USD, level by level: `price × to_usd` agrees at every position.
pub open spec fn same_usd_levels(l1: Seq<PriceLevel>, u1: Dec, l2: Seq<PriceLevel>, u2: Dec) -> bool {
    &&& l1.len() == l2.len()
    &&& forall|i: int|
        0 <= i < l1.len() ==> (#[trigger] l1[i]).qty == l2[i].qty && spec_mul(l1[i].price, u1) == spec_mul(
            l2[i].price,
            u2,
        )
}

/// Dropping the last level of two ladders that agree in USD leaves two
/// ladders that agree in USD.
proof fn lemma_same_usd_levels_prefix(l1: Seq<PriceLevel>, u1: Dec, l2: Seq<PriceLevel>, u2: Dec)
    requires
        same_usd_levels(l1, u1, l2, u2),
        l1.len() > 0,
    ensures
        same_usd_levels(l1.drop_last(), u1, l2.drop_last(), u2),
        l1.last().qty == l2.last().qty,
        spec_mul(l1.last().price, u1) == spec_mul(l2.last().price, u2),
{
    let n = l1.len() - 1;
    assert(l1[n].qty == l2[n].qty);
    assert forall|i: int| 0 <= i < l1.drop_last().len() implies (#[trigger] l1.drop_last()[i]).qty
        == l2.drop_last()[i].qty && spec_mul(l1.drop_last()[i].price, u1) == spec_mul(l2.drop_last()[i].price, u2) by {
        assert(l1[i].qty == l2[i].qty);
    }
}

/// Buying with a USD budget is priced in USD: the walk over the asks depends
/// on each ask price only through its USD value `price × to_usd`. A book
/// quoted in one currency at rate `u1` and a book with the same sizes quoted
/// in another at rate `u2` fill the same quantity at the same cost when their
/// levels are worth the same in USD.
pub proof fn lemma_budget_walk_in_usd(l1: Seq<PriceLevel>, u1: Dec, l2: Seq<PriceLevel>, u2: Dec, budget: Dec)
    requires
        same_usd_levels(l1, u1, l2, u2),
    ensures
        budget_walk(l1, budget, u1) == budget_walk(l2, budget, u2),
    decreases l1.len(),
{
    if l1.len() > 0 {
        lemma_same_usd_levels_prefix(l1, u1, l2, u2);
        lemma_budget_walk_in_usd(l1.drop_last(), u1, l2.drop_last(), u2, budget);
    }
}

/// The buy VWAP and the quantity bought with a USD budget are in USD: asks
/// whose levels are worth the same in USD (same sizes, same `price × to_usd`)
/// give the same `(VWAP, quantity)`, whatever currency and rate they are
/// quoted in.
pub proof fn lemma_vwap_buy_in_usd(asks1: Seq<PriceLevel>, u1: Dec, asks2: Seq<PriceLevel>, u2: Dec, budget: Dec)
    requires
        same_usd_levels(asks1, u1, asks2, u2),
    ensures
        vwap_take_asks_spec(asks1, budget, u1) == vwap_take_asks_spec(asks2, budget, u2),
{
    lemma_budget_walk_in_usd(asks1, u1, asks2, u2, budget);
}

/// Filling a target quantity is priced in USD: the walk depends on each price
/// only through its USD value `price × to_usd`.
pub proof fn lemma_qty_walk_in_usd(l1: Seq<PriceLevel>, u1: Dec, l2: Seq<PriceLevel>, u2: Dec, target: Dec)
    requires
        same_usd_levels(l1, u1, l2, u2),
    ensures
        qty_walk(l1, target, u1) == qty_walk(l2, target, u2),
    decreases l1.len(),
{
    if l1.len() > 0 {
        lemma_same_usd_levels_prefix(l1, u1, l2, u2);
        lemma_qty_walk_in_usd(l1.drop_last(), u1, l2.drop_last(), u2, target);
    }
}

/// The VWAP of taking a target quantity (selling into bids, or re-pricing a
/// buy) is in USD: levels worth the same in USD give the same
/// `(VWAP, quantity)`, whatever currency and rate they are quoted in.
pub proof fn lemma_vwap_qty_in_usd(l1: Seq<PriceLevel>, u1: Dec, l2: Seq<PriceLevel>, u2: Dec, target: Dec)
    requires
        same_usd_levels(l1, u1, l2, u2),
    ensures
        vwap_take_qty_spec(l1, target, u1) == vwap_take_qty_spec(l2, target, u2),
{
    lemma_qty_walk_in_usd(l1, u1, l2, u2, target);
}

/// The depth-weighted sums are in USD: `Σ price·to_usd·qty` and `Σ qty`
/// depend on each price only through its USD value `price × to_usd`.
pub proof fn lemma_weighted_sums_in_usd(l1: Seq<PriceLevel>, u1: Dec, l2: Seq<PriceLevel>, u2: Dec)
    requires
        same_usd_levels(l1, u1, l2, u2),
    ensures
        weighted_sums(l1, u1) == weighted_sums(l2, u2),
    decreases l1.len(),
{
    if l1.len() > 0 {
        lemma_same_usd_levels_prefix(l1, u1, l2, u2);
        lemma_weighted_sums_in_usd(l1.drop_last(), u1, l2.drop_last(), u2);
    }
}

/// The depth-weighted mid is in USD: two books whose bids and asks are worth
/// the same in USD level by level (same sizes, same `price × to_usd`) have
/// the same mid, whatever currency and rate each is quoted in; so a KRW book
/// is compared with a USDT book only after conversion.
pub proof fn lemma_depth_weighted_mid_in_usd(
    bids1: Seq<PriceLevel>,
    asks1: Seq<PriceLevel>,
    u1: Dec,
    bids2: Seq<PriceLevel>,
    asks2: Seq<PriceLevel>,
    u2: Dec,
)
    requires
        same_usd_levels(bids1, u1, bids2, u2),
        same_usd_levels(asks1, u1, asks2, u2),
    ensures
        depth_weighted_mid_spec(bids1, asks1, u1) == depth_weighted_mid_spec(bids2, asks2, u2),
{
    lemma_weighted_sums_in_usd(bids1, u1, bids2, u2);
    lemma_weighted_sums_in_usd(asks1, u1, asks2, u2);
}

/// A scan that overflowed on some pair stays overflowed.
proof fn lemma_scan_none_persists(
    tickers: Seq<Option<NormalizedTicker>>,
    books: Seq<Option<OrderBookUpdate>>,
    symbol: Symbol,
    now: i128,
    trade: Dec,
    min: Dec,
    k: nat,
    m: nat,
)
    requires
        k <= m,
        scan_upto(tickers, books, symbol, now, trade, min, k) is None,
    ensures
        scan_upto(tickers, books, symbol, now, trade, min, m) is None,
    decreases m - k,
{
    if k < m {
        lemma_scan_none_persists(tickers, books, symbol, now, trade, min, k, (m - 1) as nat);
    }
}

/// Numeric order is total, stated for the two relations used here.
proof fn lemma_decimal_order_total(a: (int, nat), b: (int, nat))
    ensures
        !model_lt(a, b) <==> model_le(b, a),
{
    lemma_model_le_total(a, b);
}

/// The best-bid/offer estimate never trades more than the budget buys at the
/// ask, nor more than either quote offers, and its prices are the quotes'.
pub proof fn lemma_bbo_quantity_bounded(trade: Dec, buy_ask: Dec, sell_bid: Dec, bbo: Dec, buy_qty: Dec, sell_qty: Dec)
    ensures
        bbo_execution(trade, buy_ask, sell_bid, bbo, buy_qty, sell_qty) matches Some((b, s, sp, mq, _)) ==> {
            &&& b == buy_ask
            &&& s == sell_bid
            &&& sp == bbo
            &&& model_le(mq@, buy_qty@)
            &&& model_le(mq@, sell_qty@)
            &&& spec_div(trade, buy_ask) matches Some(q) && model_le(mq@, q@)
        },
{
    if let Some(q) = spec_div(trade, buy_ask) {
        let m1 = spec_min(q, buy_qty);
        lemma_model_le_total(q@, buy_qty@);
        lemma_model_le_total(m1@, sell_qty@);
        let mq = spec_min(m1, sell_qty);
        if model_lt(sell_qty@, m1@) {
            lemma_model_le_total(sell_qty@, m1@);
            lemma_model_le_total(m1@, q@);
            lemma_model_le_total(m1@, buy_qty@);
            lemma_model_le_transitive(sell_qty@, m1@, q@);
            lemma_model_le_transitive(sell_qty@, m1@, buy_qty@);
        }
        assert(model_le(m1@, q@) && model_le(m1@, buy_qty@));
        assert(model_le(mq@, m1@));
        lemma_model_le_transitive(mq@, m1@, q@);
        lemma_model_le_transitive(mq@, m1@, buy_qty@);
    }
}

/// The book behind an optional reference.
pub open spec fn opt_book(o: Option<&OrderBookUpdate>) -> Option<OrderBookUpdate> {
    match o {
        Some(b) => Some(*b),
        None => None,
    }
}

// ── Executable helpers ───────────────────────────────────────

fn spread_pct_exec(hi: Dec, lo: Dec) -> (r: Option<Dec>)
    ensures
        r == spread_pct(hi, lo),
{
    let d = hi.checked_sub(lo)?;
    let q = d.checked_div(lo)?;
    q.checked_mul(Dec::new(100, 0))
}

fn weighted_sums_exec(levels: &Vec<PriceLevel>, to_usd: Dec) -> (r: Option<(Dec, Dec)>)
    ensures
        r == weighted_sums(levels@, to_usd),
{
    let mut acc: Option<(Dec, Dec)> = Some((Dec::zero(), Dec::zero()));
    let mut i: usize = 0;
    while i < levels.len()
        invariant
            i <= levels@.len(),
            acc == weighted_sums(levels@.subrange(0, i as int), to_usd),
        decreases levels@.len() - i,
    {
        let level = levels[i];
        acc = match acc {
            None => None,
            Some((pq, q)) => {
                let t = match level.price.checked_mul(to_usd) {
                    Some(p) => p.checked_mul(level.qty),
                    None => None,
                };
                let npq = match t {
                    Some(t) => pq.checked_add(t),
                    None => None,
                };
                let nq = q.checked_add(level.qty);
                match (npq, nq) {
                    (Some(a), Some(b)) => Some((a, b)),
                    _ => None,
                }
            },
        };
        proof {
            assert(levels@.subrange(0, i + 1).drop_last() =~= levels@.subrange(0, i as int));
            assert(levels@.subrange(0, i + 1).last() == levels@[i as int]);
        }
        i += 1;
    }
    proof {
        assert(levels@.subrange(0, levels@.len() as int) =~= levels@);
    }
    acc
}

/// Depth-weighted mid price of a book in USD: the mean of
/// `Σ(price·to_usd·qty) / Σ qty` over the bids and over the asks. Outer
/// `None`: an operation overflowed; inner `None`: a side has zero quantity.
fn depth_weighted_mid(bids: &Vec<PriceLevel>, asks: &Vec<PriceLevel>, to_usd: Dec) -> (r: Option<Option<Dec>>)
    ensures
        r == depth_weighted_mid_spec(bids@, asks@, to_usd),
{
    let b = weighted_sums_exec(bids, to_usd);
    let a = weighted_sums_exec(asks, to_usd);
    match (b, a) {
        (Some((bpq, bq)), Some((apq, aq))) => {
            if bq.is_zero() || aq.is_zero() {
                return Some(None);
            }
            let wb = bpq.checked_div(bq);
            let wa = apq.checked_div(aq);
            let s = match (wb, wa) {
                (Some(x), Some(y)) => x.checked_add(y),
                _ => None,
            };
            match s {
                Some(s) => match s.checked_div(Dec::two()) {
                    Some(m) => Some(Some(m)),
                    None => None,
                },
                None => None,
            }
        },
        _ => None,
    }
}

fn budget_step_exec(acc: Option<(Dec, Dec, bool)>, level: PriceLevel, budget: Dec, to_usd: Dec) -> (r: Option<(Dec, Dec, bool)>)
    ensures
        r == budget_step(acc, level, budget, to_usd),
{
    let (filled, spent, stopped) = acc?;
    if stopped {
        return acc;
    }
    let p = level.price.checked_mul(to_usd)?;
    if p.is_zero() {
        return acc;
    }
    let rem = budget.checked_sub(spent)?;
    if rem.le(&Dec::zero()) {
        return Some((filled, spent, true));
    }
    let cost = level.qty.checked_mul(p)?;
    if rem.le(&cost) {
        let part = rem.checked_div(p)?;
        let f = filled.checked_add(part)?;
        Some((f, budget, false))
    } else {
        let f = filled.checked_add(level.qty)?;
        let s = spent.checked_add(cost)?;
        Some((f, s, false))
    }
}

fn qty_step_exec(acc: Option<(Dec, Dec, bool)>, level: PriceLevel, target: Dec, to_usd: Dec) -> (r: Option<(Dec, Dec, bool)>)
    ensures
        r == qty_step(acc, level, target, to_usd),
{
    let (filled, value, stopped) = acc?;
    if stopped {
        return acc;
    }
    let p = level.price.checked_mul(to_usd)?;
    if p.is_zero() {
        return acc;
    }
    let rem = target.checked_sub(filled)?;
    if rem.le(&Dec::zero()) {
        return Some((filled, value, true));
    }
    if rem.le(&level.qty) {
        let part = rem.checked_mul(p)?;
        let v = value.checked_add(part)?;
        Some((target, v, false))
    } else {
        let f = filled.checked_add(level.qty)?;
        let part = level.qty.checked_mul(p)?;
        let v = value.checked_add(part)?;
        Some((f, v, false))
    }
}

fn vwap_of_exec(walk: Option<(Dec, Dec, bool)>) -> (r: Option<Option<(Dec, Dec)>>)
    ensures
        r == vwap_of(walk),
{
    let (filled, value, _) = walk?;
    if filled.is_zero() {
        return Some(None);
    }
    let v = value.checked_div(filled)?;
    Some(Some((v, filled)))
}

/// Walks the asks (low to high), spending up to `budget_usd`. Returns
/// `(vwap_usd, filled_qty)`; inner `None` when nothing is filled, outer
/// `None` where an operation overflowed.
fn vwap_take_asks(asks: &Vec<PriceLevel>, budget_usd: Dec, to_usd: Dec) -> (r: Option<Option<(Dec, Dec)>>)
    ensures
        r == vwap_take_asks_spec(asks@, budget_usd, to_usd),
{
    let mut acc: Option<(Dec, Dec, bool)> = Some((Dec::zero(), Dec::zero(), false));
    let mut i: usize = 0;
    while i < asks.len()
        invariant
            i <= asks@.len(),
            acc == budget_walk(asks@.subrange(0, i as int), budget_usd, to_usd),
        decreases asks@.len() - i,
    {
        acc = budget_step_exec(acc, asks[i], budget_usd, to_usd);
        proof {
            assert(asks@.subrange(0, i + 1).drop_last() =~= asks@.subrange(0, i as int));
            assert(asks@.subrange(0, i + 1).last() == asks@[i as int]);
        }
        i += 1;
    }
    proof {
        assert(asks@.subrange(0, asks@.len() as int) =~= asks@);
    }
    vwap_of_exec(acc)
}

fn vwap_take_qty(levels: &Vec<PriceLevel>, target_qty: Dec, to_usd: Dec) -> (r: Option<Option<(Dec, Dec)>>)
    ensures
        r == vwap_take_qty_spec(levels@, target_qty, to_usd),
{
    let mut acc: Option<(Dec, Dec, bool)> = Some((Dec::zero(), Dec::zero(), false));
    let mut i: usize = 0;
    while i < levels.len()
        invariant
            i <= levels@.len(),
            acc == qty_walk(levels@.subrange(0, i as int), target_qty, to_usd),
        decreases levels@.len() - i,
    {
        acc = qty_step_exec(acc, levels[i], target_qty, to_usd);
        proof {
            assert(levels@.subrange(0, i + 1).drop_last() =~= levels@.subrange(0, i as int));
            assert(levels@.subrange(0, i + 1).last() == levels@[i as int]);
        }
        i += 1;
    }
    proof {
        assert(levels@.subrange(0, levels@.len() as int) =~= levels@);
    }
    vwap_of_exec(acc)
}

/// Walks the asks (low to high), buying up to `target_qty` coins; used to
/// re-price the buy when the sell side limits the tradeable quantity.
/// Returns `(vwap_usd, filled_qty)`.
fn vwap_take_asks_by_qty(asks: &Vec<PriceLevel>, target_qty: Dec, to_usd: Dec) -> (r: Option<Option<(Dec, Dec)>>)
    ensures
        r == vwap_take_qty_spec(asks@, target_qty, to_usd),
{
    vwap_take_qty(asks, target_qty, to_usd)
}

/// Walks the bids (high to low), selling up to `target_qty`. Returns
/// `(vwap_usd, filled_qty)`.
fn vwap_take_bids(bids: &Vec<PriceLevel>, target_qty: Dec, to_usd: Dec) -> (r: Option<Option<(Dec, Dec)>>)
    ensures
        r == vwap_take_qty_spec(bids@, target_qty, to_usd),
{
    vwap_take_qty(bids, target_qty, to_usd)
}

fn usd_factor_exec(usd: Dec, raw: Dec) -> (r: Option<Dec>)
    ensures
        r == usd_factor(usd, raw),
{
    if !raw.is_zero() {
        usd.checked_div(raw)
    } else {
        Some(Dec::one())
    }
}

fn mid_spread_exec(
    bb: Option<&OrderBookUpdate>,
    sb: Option<&OrderBookUpdate>,
    buy_to_usd: Dec,
    sell_to_usd: Dec,
    bbo: Dec,
) -> (r: Option<Dec>)
    ensures
        r == mid_spread_spec(opt_book(bb), opt_book(sb), buy_to_usd, sell_to_usd, bbo),
{
    match (bb, sb) {
        (Some(b), Some(s)) => {
            if b.bids.len() > 0 && b.asks.len() > 0 && s.bids.len() > 0 && s.asks.len() > 0 {
                let bm = depth_weighted_mid(&b.bids, &b.asks, buy_to_usd);
                let sm = depth_weighted_mid(&s.bids, &s.asks, sell_to_usd);
                match (bm, sm) {
                    (Some(bm), Some(sm)) => match (bm, sm) {
                        (Some(x), Some(y)) => {
                            if !x.is_zero() {
                                spread_pct_exec(y, x)
                            } else {
                                Some(bbo)
                            }
                        },
                        _ => Some(bbo),
                    },
                    _ => None,
                }
            } else {
                Some(bbo)
            }
        },
        _ => Some(bbo),
    }
}

fn bbo_execution_exec(trade: Dec, buy_ask: Dec, sell_bid: Dec, bbo: Dec, buy_qty: Dec, sell_qty: Dec) -> (r: Option<(Dec, Dec, Dec, Dec, Dec)>)
    ensures
        r == bbo_execution(trade, buy_ask, sell_bid, bbo, buy_qty, sell_qty),
{
    let q = trade.checked_div(buy_ask)?;
    let mq = q.min(buy_qty).min(sell_qty);
    let d = sell_bid.checked_sub(buy_ask)?;
    let p = mq.checked_mul(d)?;
    Some((buy_ask, sell_bid, bbo, mq, p))
}

fn vwap_execution_exec(
    bb: Option<&OrderBookUpdate>,
    sb: Option<&OrderBookUpdate>,
    trade: Dec,
    buy_to_usd: Dec,
    sell_to_usd: Dec,
    buy_ask: Dec,
    sell_bid: Dec,
    bbo: Dec,
    buy_qty: Dec,
    sell_qty: Dec,
) -> (r: Option<(Dec, Dec, Dec, Dec, Dec)>)
    ensures
        r == vwap_execution(
            opt_book(bb),
            opt_book(sb),
            trade,
            buy_to_usd,
            sell_to_usd,
            bbo_execution(trade, buy_ask, sell_bid, bbo, buy_qty, sell_qty),
            bbo,
        ),
{
    match (bb, sb) {
        (Some(b), Some(s)) => {
            if b.asks.len() == 0 || s.bids.len() == 0 {
                return bbo_execution_exec(trade, buy_ask, sell_bid, bbo, buy_qty, sell_qty);
            }
            match vwap_take_asks(&b.asks, trade, buy_to_usd) {
                None => None,
                Some(None) => bbo_execution_exec(trade, buy_ask, sell_bid, bbo, buy_qty, sell_qty),
                Some(Some((vb_full, qb))) => match vwap_take_bids(&s.bids, qb, sell_to_usd) {
                    None => None,
                    Some(None) => bbo_execution_exec(trade, buy_ask, sell_bid, bbo, buy_qty, sell_qty),
                    Some(Some((vs, qs))) => {
                        let vb = if qs.lt(&qb) {
                            match vwap_take_asks_by_qty(&b.asks, qs, buy_to_usd) {
                                None => {
                                    return None;
                                },
                                Some(None) => vb_full,
                                Some(Some((v, _))) => v,
                            }
                        } else {
                            vb_full
                        };
                        let sp = if !vb.is_zero() {
                            spread_pct_exec(vs, vb)
                        } else {
                            Some(bbo)
                        };
                        let spread = sp?;
                        let d = vs.checked_sub(vb)?;
                        let p = qs.checked_mul(d)?;
                        Some((vb, vs, spread, qs, p))
                    },
                },
            }
        },
        _ => bbo_execution_exec(trade, buy_ask, sell_bid, bbo, buy_qty, sell_qty),
    }
}

fn pair_signal(
    bt: &NormalizedTicker,
    st: &NormalizedTicker,
    bb: Option<&OrderBookUpdate>,
    sb: Option<&OrderBookUpdate>,
    buy_ex: Exchange,
    sell_ex: Exchange,
    symbol: Symbol,
    now: i128,
    trade: Dec,
    min: Dec,
) -> (r: Option<Option<ArbitrageSignal>>)
    ensures
        r == pair_signal_spec(*bt, *st, opt_book(bb), opt_book(sb), buy_ex, sell_ex, symbol, now, trade, min),
{
    if seconds_over(now, bt.local_timestamp, 3) || seconds_over(now, st.local_timestamp, 3) {
        return Some(None);
    }
    let buy_ask = bt.best_ask_usd;
    let sell_bid = st.best_bid_usd;
    if buy_ask.is_zero() {
        return Some(None);
    }
    let bbo = spread_pct_exec(sell_bid, buy_ask)?;
    let bf = usd_factor_exec(bt.best_ask_usd, bt.raw_ask);
    let sf = usd_factor_exec(st.best_bid_usd, st.raw_bid);
    let (bf, sf) = match (bf, sf) {
        (Some(x), Some(y)) => (x, y),
        _ => {
            return None;
        },
    };
    let mid = mid_spread_exec(bb, sb, bf, sf, bbo);
    let exec = vwap_execution_exec(bb, sb, trade, bf, sf, buy_ask, sell_bid, bbo, bt.best_ask_qty, st.best_bid_qty);
    match (mid, exec) {
        (Some(mid), Some((vb, vs, vsp, mq, p))) => {
            if mid.lt(&min) {
                Some(None)
            } else {
                Some(Some(ArbitrageSignal {
                    buy_exchange: buy_ex,
                    sell_exchange: sell_ex,
                    symbol,
                    gross_spread_pct: bbo,
                    net_spread_pct: bbo,
                    max_qty: mq,
                    estimated_profit_usd: p,
                    buy_price_usd: buy_ask,
                    sell_price_usd: sell_bid,
                    vwap_buy_usd: vb,
                    vwap_sell_usd: vs,
                    vwap_spread_pct: vsp,
                    mid_spread_pct: mid,
                    timestamp: now,
                }))
            }
        },
        _ => None,
    }
}


// ── Sorting of book sides ────────────────────────────────────

/// Two prices are numerically equal.
pub open spec fn same_price(a: (int, nat), b: (int, nat)) -> bool {
    model_le(a, b) && model_le(b, a)
}

/// The levels priced numerically at `p`, in their order.
pub open spec fn at_price(levels: Seq<PriceLevel>, p: (int, nat)) -> Seq<PriceLevel> {
    levels.filter(|l: PriceLevel| same_price(l.price@, p))
}

/// Inserting a level before every later level of a different price puts it
/// last among the levels of its price.
proof fn lemma_at_price_insert(s: Seq<PriceLevel>, j: int, x: PriceLevel, p: (int, nat))
    requires
        0 <= j <= s.len(),
        forall|k: int| j <= k < s.len() ==> !same_price(#[trigger] s[k].price@, x.price@),
    ensures
        at_price(s.insert(j, x), p) == (if same_price(x.price@, p) {
            at_price(s, p).push(x)
        } else {
            at_price(s, p)
        }),
{
    let pred = |l: PriceLevel| same_price(l.price@, p);
    let a = s.subrange(0, j);
    let b = s.subrange(j, s.len() as int);
    let e = Seq::<PriceLevel>::empty();
    assert(s.insert(j, x) =~= (a + seq![x]) + b);
    assert(s =~= a + b);
    assert(seq![x] =~= e.push(x));
    Seq::filter_distributes_over_add(a + seq![x], b, pred);
    Seq::filter_distributes_over_add(a, seq![x], pred);
    Seq::filter_distributes_over_add(a, b, pred);
    e.lemma_filter_push(x, pred);
    assert(e.filter(pred) =~= e) by {
        reveal(Seq::filter);
    }
    if same_price(x.price@, p) {
        assert forall|k: int| 0 <= k < b.len() implies !pred(#[trigger] b[k]) by {
            assert(b[k] == s[j + k]);
            if same_price(b[k].price@, p) {
                lemma_model_le_transitive(b[k].price@, p, x.price@);
                lemma_model_le_transitive(x.price@, p, b[k].price@);
            }
        }
        assert(b.all(|l: PriceLevel| !pred(l)));
        b.lemma_all_neg_filter_empty(pred);
        assert(b.filter(pred) =~= e);
        assert(at_price(s, p) =~= a.filter(pred));
        assert(at_price(s.insert(j, x), p) =~= a.filter(pred).push(x));
    } else {
        assert(at_price(s.insert(j, x), p) =~= a.filter(pred) + b.filter(pred));
    }
}

/// Appending a level puts it last among the levels of its price.
proof fn lemma_at_price_push(s: Seq<PriceLevel>, x: PriceLevel, p: (int, nat))
    ensures
        at_price(s.push(x), p) == (if same_price(x.price@, p) {
            at_price(s, p).push(x)
        } else {
            at_price(s, p)
        }),
{
    s.lemma_filter_push(x, |l: PriceLevel| same_price(l.price@, p));
}

/// Sorts levels low to high by price, keeping the order of equal prices.
fn sort_ascending(levels: Vec<PriceLevel>) -> (r: Vec<PriceLevel>)
    ensures
        sorted_ascending(r@),
        r@.to_multiset() == levels@.to_multiset(),
        forall|p: (int, nat)| #[trigger] at_price(r@, p) == at_price(levels@, p),
{
    let mut out: Vec<PriceLevel> = Vec::new();
    let mut i: usize = 0;
    while i < levels.len()
        invariant
            i <= levels@.len(),
            sorted_ascending(out@),
            out@.to_multiset() == levels@.subrange(0, i as int).to_multiset(),
            forall|p: (int, nat)| #[trigger] at_price(out@, p) == at_price(levels@.subrange(0, i as int), p),
        decreases levels@.len() - i,
    {
        let x = levels[i];
        let mut j: usize = 0;
        while j < out.len() && !x.price.lt(&out[j].price)
            invariant
                j <= out@.len(),
                sorted_ascending(out@),
                forall|k: int| 0 <= k < j ==> model_le(#[trigger] out@[k].price@, x.price@),
            decreases out@.len() - j,
        {
            j += 1;
        }
        proof {
            let s = out@;
            let n = s.insert(j as int, x);
            assert forall|a: int, b: int| 0 <= a < b < n.len() implies model_le(
                n[a].price@,
                n[b].price@,
            ) by {
                if a < j && b > j {
                    assert(n[b] == s[b - 1]);
                } else if a == j && b > j {
                    assert(n[b] == s[b - 1]);
                    assert(model_le(x.price@, s[j as int].price@));
                    lemma_model_le_transitive(x.price@, s[j as int].price@, s[b - 1].price@);
                } else if a > j {
                    assert(n[a] == s[a - 1] && n[b] == s[b - 1]);
                }
            }
            vstd::seq_lib::to_multiset_insert(s, j as int, x);
            assert(levels@.subrange(0, i + 1) =~= levels@.subrange(0, i as int).push(x));
            assert forall|k: int| j <= k < s.len() implies !same_price(#[trigger] s[k].price@, x.price@) by {
                lemma_model_le_total(x.price@, s[j as int].price@);
                if same_price(s[k].price@, x.price@) && k > j {
                    lemma_model_le_transitive(s[j as int].price@, s[k].price@, x.price@);
                }
            }
            assert forall|p: (int, nat)| #[trigger] at_price(n, p) == at_price(levels@.subrange(0, i + 1), p) by {
                lemma_at_price_insert(s, j as int, x, p);
                lemma_at_price_push(levels@.subrange(0, i as int), x, p);
            }
        }
        out.insert(j, x);
        i += 1;
    }
    proof {
        assert(levels@.subrange(0, levels@.len() as int) =~= levels@);
    }
    out
}

/// Sorts levels high to low by price, keeping the order of equal prices.
fn sort_descending(levels: Vec<PriceLevel>) -> (r: Vec<PriceLevel>)
    ensures
        sorted_descending(r@),
        r@.to_multiset() == levels@.to_multiset(),
        forall|p: (int, nat)| #[trigger] at_price(r@, p) == at_price(levels@, p),
{
    let mut out: Vec<PriceLevel> = Vec::new();
    let mut i: usize = 0;
    while i < levels.len()
        invariant
            i <= levels@.len(),
            sorted_descending(out@),
            out@.to_multiset() == levels@.subrange(0, i as int).to_multiset(),
            forall|p: (int, nat)| #[trigger] at_price(out@, p) == at_price(levels@.subrange(0, i as int), p),
        decreases levels@.len() - i,
    {
        let x = levels[i];
        let mut j: usize = 0;
        while j < out.len() && !out[j].price.lt(&x.price)
            invariant
                j <= out@.len(),
                sorted_descending(out@),
                forall|k: int| 0 <= k < j ==> model_le(x.price@, #[trigger] out@[k].price@),
            decreases out@.len() - j,
        {
            j += 1;
        }
        proof {
            let s = out@;
            let n = s.insert(j as int, x);
            assert forall|a: int, b: int| 0 <= a < b < n.len() implies model_le(
                n[b].price@,
                n[a].price@,
            ) by {
                if a < j && b > j {
                    assert(n[b] == s[b - 1]);
                } else if a == j && b > j {
                    assert(n[b] == s[b - 1]);
                    assert(model_le(s[j as int].price@, x.price@));
                    lemma_model_le_transitive(s[b - 1].price@, s[j as int].price@, x.price@);
                } else if a > j {
                    assert(n[a] == s[a - 1] && n[b] == s[b - 1]);
                }
            }
            vstd::seq_lib::to_multiset_insert(s, j as int, x);
            assert(levels@.subrange(0, i + 1) =~= levels@.subrange(0, i as int).push(x));
            assert forall|k: int| j <= k < s.len() implies !same_price(#[trigger] s[k].price@, x.price@) by {
                lemma_model_le_total(s[j as int].price@, x.price@);
                if same_price(s[k].price@, x.price@) && k > j {
                    lemma_model_le_transitive(x.price@, s[k].price@, s[j as int].price@);
                }
            }
            assert forall|p: (int, nat)| #[trigger] at_price(n, p) == at_price(levels@.subrange(0, i + 1), p) by {
                lemma_at_price_insert(s, j as int, x, p);
                lemma_at_price_push(levels@.subrange(0, i as int), x, p);
            }
        }
        out.insert(j, x);
        i += 1;
    }
    proof {
        assert(levels@.subrange(0, levels@.len() as int) =~= levels@);
    }
    out
}

/// `b` is `ob` with its asks sorted low to high and its bids high to low,
/// levels of equal price keeping their order (a stable sort).
pub open spec fn sorted_book_of(b: OrderBookUpdate, ob: OrderBookUpdate) -> bool {
    &&& b.exchange == ob.exchange
    &&& b.symbol == ob.symbol
    &&& b.quote_currency == ob.quote_currency
    &&& b.timestamp == ob.timestamp
    &&& sorted_ascending(b.asks@)
    &&& b.asks@.to_multiset() == ob.asks@.to_multiset()
    &&& forall|p: (int, nat)| #[trigger] at_price(b.asks@, p) == at_price(ob.asks@, p)
    &&& sorted_descending(b.bids@)
    &&& b.bids@.to_multiset() == ob.bids@.to_multiset()
    &&& forall|p: (int, nat)| #[trigger] at_price(b.bids@, p) == at_price(ob.bids@, p)
}

// ── The engine ───────────────────────────────────────────────

/// Latest quotes and books per (venue, symbol), keyed by the key's slot
/// (see `slot`), and the scan parameters.
pub struct ArbitrageEngine {
    latest: HashMap<usize, NormalizedTicker>,
    order_books: HashMap<usize, OrderBookUpdate>,
    trade_amount_usd: Dec,
    min_spread: Dec,
}

impl ArbitrageEngine {
    /// Every key of the tables is a slot.
    pub closed spec fn wf(self) -> bool {
        &&& forall|k: usize| #[trigger] self.latest@.contains_key(k) ==> k < 16
        &&& forall|k: usize| #[trigger] self.order_books@.contains_key(k) ==> k < 16
    }

    /// Latest quote per slot.
    pub closed spec fn tickers(self) -> Seq<Option<NormalizedTicker>> {
        slot_entries(self.latest@)
    }

    /// Latest book per slot.
    pub closed spec fn books(self) -> Seq<Option<OrderBookUpdate>> {
        slot_entries(self.order_books@)
    }

    /// USD budget of one simulated trade.
    pub closed spec fn trade_amount(self) -> Dec {
        self.trade_amount_usd
    }

    /// Smallest mid spread (percent) that yields a signal.
    pub closed spec fn min_spread(self) -> Dec {
        self.min_spread
    }

    /// The latest quote of a venue for a symbol.
    pub open spec fn ticker(self, e: Exchange, s: Symbol) -> Option<NormalizedTicker> {
        self.tickers()[slot(e, s)]
    }

    /// The latest book of a venue for a symbol.
    pub open spec fn book(self, e: Exchange, s: Symbol) -> Option<OrderBookUpdate> {
        self.books()[slot(e, s)]
    }

    /// The signals a scan of `symbol` at time `now` emits; `None` where an
    /// operation overflows.
    pub open spec fn scan_spec(self, symbol: Symbol, now: i128) -> Option<Seq<ArbitrageSignal>> {
        scan_upto(self.tickers(), self.books(), symbol, now, self.trade_amount(), self.min_spread(), 16)
    }

    /// An engine with no quotes or books, a trade budget of 10000 USD and a
    /// minimum spread of 2.0 percent.
    pub fn new() -> (r: Self)
        ensures
            r.wf(),
            forall|e: Exchange, s: Symbol| r.ticker(e, s) is None && r.book(e, s) is None,
            r.trade_amount()@ == (10000int, 0nat),
            r.min_spread()@ == (20int, 1nat),
    {
        let latest: HashMap<usize, NormalizedTicker> = HashMap::new();
        let books: HashMap<usize, OrderBookUpdate> = HashMap::new();
        proof {
            assert forall|e: Exchange, s: Symbol| 0 <= #[trigger] slot(e, s) < 16 by {
                lemma_slot_bijective(e, s, e, s);
            }
        }
        ArbitrageEngine {
            latest,
            order_books: books,
            trade_amount_usd: Dec::new(10000, 0),
            min_spread: Dec::new(20, 1),
        }
    }

    /// The latest quote of a venue for a symbol.
    pub fn ticker_of(&self, e: Exchange, s: Symbol) -> (r: Option<NormalizedTicker>)
        requires
            self.wf(),
        ensures
            r == self.ticker(e, s),
    {
        proof {
            lemma_slot_bijective(e, s, e, s);
        }
        match self.latest.get(&slot_of(e, s)) {
            Some(t) => Some(*t),
            None => None,
        }
    }

    /// The latest book of a venue for a symbol.
    pub fn book_of(&self, e: Exchange, s: Symbol) -> (r: Option<&OrderBookUpdate>)
        requires
            self.wf(),
        ensures
            opt_book(r) == self.book(e, s),
    {
        proof {
            lemma_slot_bijective(e, s, e, s);
        }
        self.order_books.get(&slot_of(e, s))
    }

    /// Stores the latest book of its venue and symbol (no scan), with the
    /// asks sorted low to high and the bids high to low.
    pub fn update_order_book(&mut self, ob: OrderBookUpdate)
        requires
            old(self).wf(),
        ensures
            final(self).wf(),
            final(self).book(ob.exchange, ob.symbol) matches Some(b) && sorted_book_of(b, ob),
            forall|e: Exchange, s: Symbol|
                !(e == ob.exchange && s == ob.symbol) ==> final(self).book(e, s) == old(self).book(e, s),
            final(self).tickers() == old(self).tickers(),
            final(self).trade_amount() == old(self).trade_amount(),
            final(self).min_spread() == old(self).min_spread(),
    {
        let ghost ob0 = ob;
        let OrderBookUpdate { exchange, symbol, bids, asks, quote_currency, timestamp } = ob;
        let asks = sort_ascending(asks);
        let bids = sort_descending(bids);
        let i = slot_of(exchange, symbol);
        self.order_books.insert(i, OrderBookUpdate { exchange, symbol, bids, asks, quote_currency, timestamp });
        proof {
            assert(self.books() =~= old(self).books().update(i as int, Some(self.order_books@[i])));
            assert forall|e: Exchange, s: Symbol|
                !(e == ob0.exchange && s == ob0.symbol) implies final(self).book(e, s) == old(self).book(e, s) by {
                lemma_slot_bijective(e, s, ob0.exchange, ob0.symbol);
            }
        }
    }

    /// Records a normalized quote and scans its symbol for opportunities at
    /// the current time. `Err` where a decimal operation overflows.
    pub fn update(&mut self, ticker: NormalizedTicker) -> (r: Result<Vec<ArbitrageSignal>, ArithmeticOverflow>)
        requires
            old(self).wf(),
        ensures
            final(self).wf(),
            final(self).ticker(ticker.exchange, ticker.symbol) == Some(ticker),
            forall|e: Exchange, s: Symbol|
                !(e == ticker.exchange && s == ticker.symbol) ==> final(self).ticker(e, s) == old(self).ticker(e, s),
            final(self).books() == old(self).books(),
            final(self).trade_amount() == old(self).trade_amount(),
            final(self).min_spread() == old(self).min_spread(),
            exists|now: i128|
                match #[trigger] final(self).scan_spec(ticker.symbol, now) {
                    None => r is Err,
                    Some(sigs) => r matches Ok(v) && v@ == sigs,
                },
            (forall|e: Exchange| e != ticker.exchange ==> (#[trigger] old(self).ticker(e, ticker.symbol)) is None)
                ==> (r matches Ok(v) && v@.len() == 0),
            r matches Ok(v) ==> forall|i: int| 0 <= i < v@.len() ==> {
                let sig = #[trigger] v@[i];
                &&& sig.buy_exchange != sig.sell_exchange
                &&& sig.symbol == ticker.symbol
                &&& model_le(final(self).min_spread()@, sig.mid_spread_pct@)
                &&& final(self).ticker(sig.buy_exchange, sig.symbol) is Some
                &&& final(self).ticker(sig.sell_exchange, sig.symbol) is Some
            },
    {
        let now = now_nanos();
        let r = self.update_at(ticker, now);
        let ghost gr = r;
        proof {
            assert(match final(self).scan_spec(ticker.symbol, now) {
                None => gr is Err,
                Some(sigs) => gr matches Ok(v) && v@ == sigs,
            });
            if let Ok(v) = gr {
                assert(final(self).scan_spec(ticker.symbol, now) == Some(v@));
                assert forall|i: int| 0 <= i < v@.len() implies {
                    let sig = #[trigger] v@[i];
                    &&& sig.buy_exchange != sig.sell_exchange
                    &&& sig.symbol == ticker.symbol
                    &&& model_le(final(self).min_spread()@, sig.mid_spread_pct@)
                    &&& final(self).ticker(sig.buy_exchange, sig.symbol) is Some
                    &&& final(self).ticker(sig.sell_exchange, sig.symbol) is Some
                } by {
                    assert(signal_justified(final(self).tickers(), ticker.symbol, now, final(self).min_spread(), v@[i]));
                }
            }
        }
        r
    }

    /// Records a normalized quote and scans its symbol as of time `now`
    /// (nanoseconds). `Err` exactly where the scan overflows.
    pub fn update_at(&mut self, ticker: NormalizedTicker, now: i128) -> (r: Result<Vec<ArbitrageSignal>, ArithmeticOverflow>)
        requires
            old(self).wf(),
        ensures
            final(self).wf(),
            final(self).ticker(ticker.exchange, ticker.symbol) == Some(ticker),
            forall|e: Exchange, s: Symbol|
                !(e == ticker.exchange && s == ticker.symbol) ==> final(self).ticker(e, s) == old(self).ticker(e, s),
            final(self).books() == old(self).books(),
            final(self).trade_amount() == old(self).trade_amount(),
            final(self).min_spread() == old(self).min_spread(),
            match r {
                Ok(v) => final(self).scan_spec(ticker.symbol, now) == Some(v@),
                Err(_) => final(self).scan_spec(ticker.symbol, now) is None,
            },
            (forall|e: Exchange| e != ticker.exchange ==> (#[trigger] old(self).ticker(e, ticker.symbol)) is None)
                ==> (r matches Ok(v) && v@.len() == 0),
            r matches Ok(v) ==> forall|j: int|
                0 <= j < 16 ==> (#[trigger] pair_outcome(
                    final(self).tickers(),
                    final(self).books(),
                    ticker.symbol,
                    now,
                    final(self).trade_amount(),
                    final(self).min_spread(),
                    j,
                ) matches Some(Some(sig)) ==> v@.contains(sig)),
            r matches Ok(v) ==> forall|i: int|
                0 <= i < v@.len() ==> signal_justified(
                    final(self).tickers(),
                    ticker.symbol,
                    now,
                    final(self).min_spread(),
                    #[trigger] v@[i],
                ),
    {
        let i = slot_of(ticker.exchange, ticker.symbol);
        self.latest.insert(i, ticker);
        proof {
            assert(self.tickers() =~= old(self).tickers().update(i as int, Some(ticker)));
            assert forall|e: Exchange, s: Symbol|
                !(e == ticker.exchange && s == ticker.symbol) implies final(self).ticker(e, s) == old(self).ticker(e, s) by {
                lemma_slot_bijective(e, s, ticker.exchange, ticker.symbol);
            }
        }
        let r = self.scan_opportunities(ticker.symbol, now);
        proof {
            lemma_scan_signals_justified(
                self.tickers(),
                self.books(),
                ticker.symbol,
                now,
                self.trade_amount(),
                self.min_spread(),
                16,
            );
            lemma_scan_complete(
                self.tickers(),
                self.books(),
                ticker.symbol,
                now,
                self.trade_amount(),
                self.min_spread(),
                16,
            );
            if forall|e: Exchange| e != ticker.exchange ==> (#[trigger] old(self).ticker(e, ticker.symbol)) is None {
                assert forall|e: Exchange| e != ticker.exchange implies (#[trigger] self.tickers()[slot(
                    e,
                    ticker.symbol,
                )]) is None by {
                    assert(old(self).ticker(e, ticker.symbol) is None);
                }
                lemma_scan_lone_quote(
                    self.tickers(),
                    self.books(),
                    ticker.symbol,
                    now,
                    self.trade_amount(),
                    self.min_spread(),
                    ticker.exchange,
                    16,
                );
            }
        }
        match r {
            Some(v) => Ok(v),
            None => Err(ArithmeticOverflow),
        }
    }

    fn scan_opportunities(&self, symbol: Symbol, now: i128) -> (r: Option<Vec<ArbitrageSignal>>)
        requires
            self.wf(),
        ensures
            match r {
                Some(v) => self.scan_spec(symbol, now) == Some(v@),
                None => self.scan_spec(symbol, now) is None,
            },
    {
        let mut signals: Vec<ArbitrageSignal> = Vec::new();
        let mut k: usize = 0;
        while k < 16
            invariant
                k <= 16,
                self.wf(),
                scan_upto(self.tickers(), self.books(), symbol, now, self.trade_amount(), self.min_spread(), k as nat)
                    == Some(signals@),
            decreases 16 - k,
        {
            let outcome = self.evaluate_pair(symbol, now, k);
            match outcome {
                None => {
                    proof {
                        lemma_scan_none_persists(
                            self.tickers(),
                            self.books(),
                            symbol,
                            now,
                            self.trade_amount(),
                            self.min_spread(),
                            (k + 1) as nat,
                            16,
                        );
                    }
                    return None;
                },
                Some(None) => {},
                Some(Some(sig)) => {
                    signals.push(sig);
                },
            }
            k += 1;
        }
        Some(signals)
    }

    fn evaluate_pair(&self, symbol: Symbol, now: i128, k: usize) -> (r: Option<Option<ArbitrageSignal>>)
        requires
            k < 16,
            self.wf(),
        ensures
            r == pair_outcome(self.tickers(), self.books(), symbol, now, self.trade_amount(), self.min_spread(), k as int),
    {
        let buy_ex = exchange_at_index(k / 4);
        let sell_ex = exchange_at_index(k % 4);
        if buy_ex == sell_ex {
            return Some(None);
        }
        let bi = slot_of(buy_ex, symbol);
        let si = slot_of(sell_ex, symbol);
        proof {
            lemma_slot_bijective(buy_ex, symbol, buy_ex, symbol);
            lemma_slot_bijective(sell_ex, symbol, sell_ex, symbol);
        }
        match (self.latest.get(&bi), self.latest.get(&si)) {
            (Some(bt), Some(st)) => pair_signal(
                bt,
                st,
                self.order_books.get(&bi),
                self.order_books.get(&si),
                buy_ex,
                sell_ex,
                symbol,
                now,
                self.trade_amount_usd,
                self.min_spread,
            ),
            _ => Some(None),
        }
    }
}

} // verus!

use engine::decimal::{ArithmeticOverflow, Dec};
use engine::models::{Exchange, NormalizedTicker, OrderBookUpdate, PriceLevel, QuoteCurrency, Symbol};
use engine::strategy::ArbitrageEngine;

const NOW: i128 = 1_700_000_000_000_000_000;

fn d(s: &str) -> Dec {
    Dec::parse(s).unwrap()
}

fn same(a: Dec, b: &str) -> bool {
    a.eq_value(&d(b))
}

fn quote(ex: Exchange, bid: &str, bid_qty: &str, ask: &str, ask_qty: &str, at: i128) -> NormalizedTicker {
    NormalizedTicker {
        exchange: ex,
        symbol: Symbol::BTC,
        best_bid_usd: d(bid),
        best_bid_qty: d(bid_qty),
        best_ask_usd: d(ask),
        best_ask_qty: d(ask_qty),
        raw_bid: d(bid),
        raw_ask: d(ask),
        quote_currency: QuoteCurrency::USDT,
        exchange_rate: None,
        timestamp: at,
        local_timestamp: at,
    }
}

fn level(p: &str, q: &str) -> PriceLevel {
    PriceLevel { price: d(p), qty: d(q) }
}

fn book(ex: Exchange, bids: Vec<PriceLevel>, asks: Vec<PriceLevel>) -> OrderBookUpdate {
    OrderBookUpdate { exchange: ex, symbol: Symbol::BTC, bids, asks, quote_currency: QuoteCurrency::USDT, timestamp: NOW }
}

#[test]
fn bbo_signal_when_spread_reaches_threshold() {
    let mut eng = ArbitrageEngine::new();
    let s = eng.update_at(quote(Exchange::Binance, "99", "1", "100", "5", NOW), NOW).unwrap();
    assert!(s.is_empty());
    let s = eng.update_at(quote(Exchange::Upbit, "103", "2", "104", "1", NOW), NOW).unwrap();
    assert_eq!(s.len(), 1);
    let sig = s[0];
    assert_eq!(sig.buy_exchange, Exchange::Binance);
    assert_eq!(sig.sell_exchange, Exchange::Upbit);
    assert_eq!(sig.symbol, Symbol::BTC);
    assert!(same(sig.gross_spread_pct, "3"));
    assert!(same(sig.net_spread_pct, "3"));
    assert!(same(sig.mid_spread_pct, "3"));
    // quantity: min(10000 / 100, 5, 2) = 2; profit 2 * (103 - 100) = 6
    assert!(same(sig.max_qty, "2"));
    assert!(same(sig.estimated_profit_usd, "6"));
    assert!(same(sig.buy_price_usd, "100"));
    assert!(same(sig.sell_price_usd, "103"));
    assert!(same(sig.vwap_buy_usd, "100"));
    assert!(same(sig.vwap_sell_usd, "103"));
    assert_eq!(sig.timestamp, NOW);
}

#[test]
fn no_signal_below_two_percent() {
    let mut eng = ArbitrageEngine::new();
    eng.update_at(quote(Exchange::Binance, "99", "1", "100", "5", NOW), NOW).unwrap();
    let s = eng.update_at(quote(Exchange::Bybit, "101.99", "2", "102", "1", NOW), NOW).unwrap();
    assert!(s.is_empty());
    // exactly 2 percent is enough
    let s = eng.update_at(quote(Exchange::Bybit, "102", "2", "103", "1", NOW), NOW).unwrap();
    assert_eq!(s.len(), 1);
}

#[test]
fn stale_quotes_are_skipped() {
    let mut eng = ArbitrageEngine::new();
    eng.update_at(quote(Exchange::Binance, "99", "1", "100", "5", NOW - 4_000_000_000), NOW).unwrap();
    let s = eng.update_at(quote(Exchange::Upbit, "110", "2", "111", "1", NOW), NOW).unwrap();
    assert!(s.is_empty());
    // 3.999999 s old counts as 3 whole seconds: still fresh
    eng.update_at(quote(Exchange::Binance, "99", "1", "100", "5", NOW - 3_999_999_999), NOW).unwrap();
    let s = eng.update_at(quote(Exchange::Upbit, "110", "2", "111", "1", NOW), NOW).unwrap();
    assert_eq!(s.len(), 1);
}

#[test]
fn zero_ask_is_skipped() {
    let mut eng = ArbitrageEngine::new();
    eng.update_at(quote(Exchange::Binance, "0", "1", "0", "5", NOW), NOW).unwrap();
    let s = eng.update_at(quote(Exchange::Upbit, "110", "2", "111", "1", NOW), NOW).unwrap();
    // only Upbit -> Binance could be priced, and Binance's bid 0 is below Upbit's ask
    assert!(s.iter().all(|x| x.buy_exchange != Exchange::Binance));
}

#[test]
fn both_directions_and_distinct_venues() {
    let mut eng = ArbitrageEngine::new();
    eng.update_at(quote(Exchange::Binance, "99", "1", "100", "5", NOW), NOW).unwrap();
    eng.update_at(quote(Exchange::Bybit, "99", "1", "100", "5", NOW), NOW).unwrap();
    let s = eng.update_at(quote(Exchange::Bithumb, "110", "1", "111", "1", NOW), NOW).unwrap();
    assert_eq!(s.len(), 2);
    assert_eq!(s[0].buy_exchange, Exchange::Binance);
    assert_eq!(s[1].buy_exchange, Exchange::Bybit);
    for sig in &s {
        assert_ne!(sig.buy_exchange, sig.sell_exchange);
        assert_eq!(sig.sell_exchange, Exchange::Bithumb);
    }
}

#[test]
fn vwap_execution_from_books() {
    let mut eng = ArbitrageEngine::new();
    eng.update_order_book(book(
        Exchange::Binance,
        vec![level("99", "10")],
        vec![level("200", "100"), level("100", "60")],
    ));
    eng.update_order_book(book(
        Exchange::Bybit,
        vec![level("240", "100"), level("250", "50")],
        vec![level("260", "10")],
    ));
    eng.update_at(quote(Exchange::Binance, "99", "10", "100", "60", NOW), NOW).unwrap();
    let s = eng.update_at(quote(Exchange::Bybit, "250", "50", "260", "10", NOW), NOW).unwrap();
    let sig = s.iter().find(|x| x.buy_exchange == Exchange::Binance).copied().unwrap();
    // buy 10000 USD: 60 @ 100 then 20 @ 200 -> 80 at VWAP 125
    assert!(same(sig.vwap_buy_usd, "125"));
    // sell 80: 50 @ 250 then 30 @ 240 -> VWAP 246.25
    assert!(same(sig.vwap_sell_usd, "246.25"));
    assert!(same(sig.max_qty, "80"));
    assert!(same(sig.vwap_spread_pct, "97"));
    assert!(same(sig.estimated_profit_usd, "9700"));
    assert!(same(sig.gross_spread_pct, "150"));
    // mid spread from depth-weighted mids lies between 92 and 93 percent
    assert!(sig.mid_spread_pct.lt(&d("93")) && d("92").lt(&sig.mid_spread_pct));
}

#[test]
fn vwap_reprices_buy_when_sell_side_is_shallower() {
    let mut eng = ArbitrageEngine::new();
    eng.update_order_book(book(Exchange::Binance, vec![level("99", "10")], vec![level("100", "60"), level("200", "100")]));
    eng.update_order_book(book(Exchange::Bybit, vec![level("250", "50")], vec![level("260", "10")]));
    eng.update_at(quote(Exchange::Binance, "99", "10", "100", "60", NOW), NOW).unwrap();
    let s = eng.update_at(quote(Exchange::Bybit, "250", "50", "260", "10", NOW), NOW).unwrap();
    let sig = s.iter().find(|x| x.buy_exchange == Exchange::Binance).copied().unwrap();
    assert!(same(sig.max_qty, "50"));
    assert!(same(sig.vwap_buy_usd, "100"));
    assert!(same(sig.vwap_sell_usd, "250"));
    assert!(same(sig.vwap_spread_pct, "150"));
    assert!(same(sig.estimated_profit_usd, "7500"));
}

#[test]
fn order_book_levels_are_sorted() {
    let mut eng = ArbitrageEngine::new();
    eng.update_order_book(book(
        Exchange::Upbit,
        vec![level("1", "1"), level("3", "1"), level("2", "1")],
        vec![level("6", "1"), level("4", "1"), level("5", "2"), level("5", "1")],
    ));
    let b = eng.book_of(Exchange::Upbit, Symbol::BTC).clone().unwrap();
    let bids: Vec<String> = b.bids.iter().map(|l| format!("{}/{}", l.price.mantissa(), l.qty.mantissa())).collect();
    let asks: Vec<String> = b.asks.iter().map(|l| format!("{}/{}", l.price.mantissa(), l.qty.mantissa())).collect();
    assert_eq!(bids, vec!["3/1", "2/1", "1/1"]);
    // equal prices keep their order
    assert_eq!(asks, vec!["4/1", "5/2", "5/1", "6/1"]);
    assert!(eng.book_of(Exchange::Binance, Symbol::BTC).is_none());
}

#[test]
fn update_stores_latest_quote() {
    let mut eng = ArbitrageEngine::new();
    assert!(eng.ticker_of(Exchange::Bybit, Symbol::BTC).is_none());
    eng.update_at(quote(Exchange::Bybit, "1", "1", "2", "1", NOW), NOW).unwrap();
    eng.update_at(quote(Exchange::Bybit, "3", "1", "4", "1", NOW), NOW).unwrap();
    let t = eng.ticker_of(Exchange::Bybit, Symbol::BTC).unwrap();
    assert!(same(t.best_bid_usd, "3"));
    assert!(eng.ticker_of(Exchange::Bybit, Symbol::ETH).is_none());
}

#[test]
fn overflow_is_reported() {
    let mut eng = ArbitrageEngine::new();
    eng.update_at(quote(Exchange::Binance, "0.0000000000000000000000000001", "1", "0.0000000000000000000000000001", "1", NOW), NOW).unwrap();
    let r = eng.update_at(quote(Exchange::Upbit, "79228162514264337593543950335", "1", "79228162514264337593543950335", "1", NOW), NOW);
    assert_eq!(r.unwrap_err(), ArithmeticOverflow);
}

#[test]
fn live_update_uses_clock() {
    let mut eng = ArbitrageEngine::new();
    // a quote stamped at the epoch is stale against the current clock
    eng.update(quote(Exchange::Binance, "99", "1", "100", "5", 0)).unwrap();
    let s = eng.update(quote(Exchange::Upbit, "150", "1", "151", "1", 0)).unwrap();
    assert!(s.is_empty());
}

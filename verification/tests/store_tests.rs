use engine::decimal::Dec;
use engine::models::{ArbitrageSignal, Exchange, ExchangeRate, NormalizedTicker, QuoteCurrency, RateSource, Symbol};
use engine::store::{
    count_signals, cumulative_point_indices, push_bounded_deque, push_bounded_vec, DataStore, Period, MAX_RATES, MAX_SIGNALS,
    MAX_TICKER_PER_PAIR,
};
use std::collections::VecDeque;

const T0: i128 = 1_700_000_000_000_000_000;

fn d(s: &str) -> Dec {
    Dec::parse(s).unwrap()
}

fn signal(profit: &str, ts: i128) -> ArbitrageSignal {
    ArbitrageSignal {
        buy_exchange: Exchange::Binance,
        sell_exchange: Exchange::Upbit,
        symbol: Symbol::SOL,
        gross_spread_pct: d("2.5"),
        net_spread_pct: d("2.5"),
        max_qty: d("1"),
        estimated_profit_usd: d(profit),
        buy_price_usd: d("100"),
        sell_price_usd: d("102.5"),
        vwap_buy_usd: d("100"),
        vwap_sell_usd: d("102.5"),
        vwap_spread_pct: d("2.5"),
        mid_spread_pct: d("2.5"),
        timestamp: ts,
    }
}

fn normalized(bid: &str, ts: i128) -> NormalizedTicker {
    NormalizedTicker {
        exchange: Exchange::Bithumb,
        symbol: Symbol::XRP,
        best_bid_usd: d(bid),
        best_bid_qty: d("1"),
        best_ask_usd: d("2"),
        best_ask_qty: d("1"),
        raw_bid: d("1000"),
        raw_ask: d("2000"),
        quote_currency: QuoteCurrency::KRW,
        exchange_rate: Some(d("1000")),
        timestamp: ts,
        local_timestamp: ts,
    }
}

#[test]
fn recent_signals_newest_first() {
    let mut st = DataStore::new();
    for (i, p) in ["1", "2", "3"].iter().enumerate() {
        st.push_signal(&signal(p, T0 + i as i128));
    }
    let r = st.recent_signals(2);
    assert_eq!(r.len(), 2);
    assert!(r[0].estimated_profit_usd.eq_value(&d("3")));
    assert!(r[1].estimated_profit_usd.eq_value(&d("2")));
    assert_eq!(st.recent_signals(100).len(), 3);
    assert_eq!(r[0].symbol, Symbol::SOL);
    assert_eq!(r[0].buy_exchange, Exchange::Binance);
}

#[test]
fn signals_are_capped() {
    let mut st = DataStore::new();
    for i in 0..(MAX_SIGNALS as i128 + 1) {
        st.push_signal(&signal("1", i));
    }
    let m = st.memory_counts();
    assert_eq!(m.signals_count, MAX_SIGNALS);
    let all = st.signals_since(i128::MIN);
    assert_eq!(all.len(), MAX_SIGNALS);
    // the oldest was dropped
    assert_eq!(all[0].timestamp, 1);
    assert_eq!(all[MAX_SIGNALS - 1].timestamp, MAX_SIGNALS as i128);
}

#[test]
fn signals_since_filters_by_time() {
    let mut st = DataStore::new();
    for i in 0..5 {
        st.push_signal(&signal("1", T0 + i * 1_000_000_000));
    }
    let s = st.signals_since(T0 + 2_000_000_000);
    assert_eq!(s.iter().map(|x| x.timestamp).collect::<Vec<_>>(), vec![T0 + 2_000_000_000, T0 + 3_000_000_000, T0 + 4_000_000_000]);
    // signals stamped at the epoch are outside the last hour
    let mut old = DataStore::new();
    old.push_signal(&signal("1", 0));
    assert!(old.signals_in_period(Period::Hour1).is_empty());
    assert_eq!(old.signals_in_period(Period::All).len(), 1);
}

#[test]
fn tickers_are_downsampled_every_five_seconds() {
    let mut st = DataStore::new();
    st.push_ticker(&normalized("1", T0));
    st.push_ticker(&normalized("2", T0 + 4_999_999_999));
    assert_eq!(st.memory_counts().ticker_total_entries, 1);
    // the latest quote is always replaced
    assert!(st.latest_ticker(Exchange::Bithumb, Symbol::XRP).unwrap().bid_usd.eq_value(&d("2")));
    st.push_ticker(&normalized("3", T0 + 5_000_000_000));
    let m = st.memory_counts();
    assert_eq!(m.ticker_total_entries, 2);
    assert_eq!(m.ticker_pairs, 1);
    assert_eq!(m.ticker_cap_per_pair, MAX_TICKER_PER_PAIR);
    let snap = st.latest_ticker(Exchange::Bithumb, Symbol::XRP).unwrap();
    assert!(snap.raw_bid.eq_value(&d("1000")));
    assert_eq!(snap.timestamp, T0 + 5_000_000_000);
    assert!(st.latest_ticker(Exchange::Upbit, Symbol::XRP).is_none());
}

#[test]
fn rates_are_kept_and_latest_reported() {
    let mut st = DataStore::new();
    assert!(st.latest_rate().is_none());
    let rate = ExchangeRate {
        krw_per_usdt: d("1350"),
        usdt_per_usd: d("1"),
        krw_per_usd: d("1351"),
        source: RateSource::Yahoo,
        timestamp: T0,
    };
    st.push_rate(&rate);
    let e = st.latest_rate().unwrap();
    assert!(e.krw_per_usd.eq_value(&d("1351")));
    assert_eq!(e.source, RateSource::Yahoo);
    let m = st.memory_counts();
    assert_eq!(m.rates_count, 1);
    assert_eq!(m.rates_cap, MAX_RATES);
}

#[test]
fn memory_estimate_formula() {
    let mut st = DataStore::new();
    st.push_signal(&signal("1", T0));
    st.push_signal(&signal("1", T0));
    st.push_ticker(&normalized("1", T0));
    let m = st.memory_counts();
    assert_eq!(m.estimated_bytes, 2 * 160 + 80 + 1024);
    assert_eq!(m.signals_cap, MAX_SIGNALS);
}

#[test]
fn bounded_buffers_drop_oldest() {
    let mut v: Vec<i32> = Vec::new();
    for i in 1..=5 {
        push_bounded_vec(&mut v, 3, i);
    }
    assert_eq!(v, vec![3, 4, 5]);
    let mut q: VecDeque<i32> = VecDeque::new();
    for i in 1..=4 {
        push_bounded_deque(&mut q, 2, i);
    }
    assert_eq!(q.into_iter().collect::<Vec<_>>(), vec![3, 4]);
}

#[test]
fn period_names() {
    assert_eq!(Period::from_str("1h"), Period::Hour1);
    assert_eq!(Period::from_str("24h"), Period::Hour24);
    assert_eq!(Period::from_str("7d"), Period::Day7);
    assert_eq!(Period::from_str("30d"), Period::Day30);
    assert_eq!(Period::from_str("1H"), Period::All);
    assert_eq!(Period::from_str(""), Period::All);
}

#[test]
fn period_cutoffs() {
    assert_eq!(Period::Hour1.cutoff_at(T0), T0 - 3_600_000_000_000);
    assert_eq!(Period::Hour24.cutoff_at(T0), T0 - 86_400_000_000_000);
    assert_eq!(Period::Day7.cutoff_at(T0), T0 - 604_800_000_000_000);
    assert_eq!(Period::Day30.cutoff_at(T0), T0 - 2_592_000_000_000_000);
    assert_eq!(Period::All.cutoff_at(T0), i128::MIN);
    assert!(Period::Hour1.cutoff() > T0 - 3_600_000_000_000);
}

#[test]
fn cumulative_points() {
    assert_eq!(cumulative_point_indices(0), Vec::<usize>::new());
    assert_eq!(cumulative_point_indices(3), vec![0, 1, 2]);
    let r = cumulative_point_indices(450);
    assert_eq!(r.len(), 226);
    assert_eq!(r[1], 2);
    assert_eq!(*r.last().unwrap(), 449);
    assert_eq!(r[r.len() - 2], 448);
}

#[test]
fn signals_counted_per_symbol_and_pair() {
    let mut store = DataStore::new();
    let mut a = signal("1", T0);
    store.push_signal(&a);
    a.symbol = Symbol::BTC;
    a.buy_exchange = Exchange::Bithumb;
    a.sell_exchange = Exchange::Bybit;
    store.push_signal(&a);
    store.push_signal(&a);
    let counts = count_signals(&store.signals_since(i128::MIN));
    assert_eq!(counts.by_symbol, vec![2, 0, 1, 0]);
    let mut expected = vec![0; 16];
    expected[0 * 4 + 2] = 1;
    expected[3 * 4 + 1] = 2;
    assert_eq!(counts.by_pair, expected);
}

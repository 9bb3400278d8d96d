//! Bounded in-memory history: recent signals, down-sampled quotes per
//! (venue, symbol), and exchange rates, each capped in length.

use vstd::prelude::*;

use std::collections::{HashMap, VecDeque};

use crate::decimal::Dec;
use crate::models::{
    exchange_index, lemma_slot_bijective, slot, slot_entries, slot_of, symbol_index, ArbitrageSignal, Exchange,
    ExchangeRate, NormalizedTicker, RateSource, Symbol,
};
use crate::time::{millis_at_least, now_nanos, whole_millis};

verus! {

broadcast use vstd::std_specs::hash::group_hash_axioms;

/// Most signals kept.
pub const MAX_SIGNALS: usize = 100_000;

/// Most quote samples kept per (venue, symbol): one per 5 s over 15 hours.
pub const MAX_TICKER_PER_PAIR: usize = 10_800;

/// Least spacing of kept quote samples, in milliseconds.
pub const TICKER_SAMPLE_INTERVAL_MS: i64 = 5_000;

/// Most exchange rates kept.
pub const MAX_RATES: usize = 10_000;

/// The contents after a bounded push: the oldest item dropped where `cap`
/// items or more are held, then `x` appended.
pub open spec fn bounded_push<T>(old_items: Seq<T>, cap: nat, x: T) -> Seq<T> {
    if old_items.len() >= cap && old_items.len() > 0 {
        old_items.drop_first().push(x)
    } else {
        old_items.push(x)
    }
}

/// A bounded push keeps a buffer within its cap, puts the new item last,
/// and drops only the oldest item, and only when the buffer was full.
pub proof fn lemma_bounded_push<T>(old_items: Seq<T>, cap: nat, x: T)
    requires
        cap > 0,
        old_items.len() <= cap,
    ensures
        bounded_push(old_items, cap, x).len() <= cap,
        bounded_push(old_items, cap, x).last() == x,
        old_items.len() < cap ==> bounded_push(old_items, cap, x) == old_items.push(x),
        old_items.len() == cap ==> bounded_push(old_items, cap, x) == old_items.subrange(1, cap as int).push(x),
{
    if old_items.len() == cap {
        assert(old_items.drop_first() =~= old_items.subrange(1, cap as int));
    }
}

/// Appends to a ring-style buffer, first dropping the oldest item where it
/// holds `cap` or more.
pub fn push_bounded_deque<T>(buf: &mut VecDeque<T>, cap: usize, x: T)
    ensures
        final(buf)@ == bounded_push(old(buf)@, cap as nat, x),
{
    if buf.len() >= cap {
        let _ = buf.pop_front();
    }
    buf.push_back(x);
    proof {
        if old(buf)@.len() >= cap && old(buf)@.len() > 0 {
            assert(old(buf)@.subrange(1, old(buf)@.len() as int) =~= old(buf)@.drop_first());
        }
    }
}

/// As `push_bounded_deque`, for a vector.
pub fn push_bounded_vec<T>(buf: &mut Vec<T>, cap: usize, x: T)
    ensures
        final(buf)@ == bounded_push(old(buf)@, cap as nat, x),
{
    if buf.len() >= cap && buf.len() > 0 {
        let _ = buf.remove(0);
    }
    buf.push(x);
    proof {
        if old(buf)@.len() >= cap && old(buf)@.len() > 0 {
            assert(old(buf)@.remove(0) =~= old(buf)@.drop_first());
        }
    }
}

/// A kept signal.
#[derive(Clone, Copy, Debug)]
pub struct StoredSignal {
    pub buy_exchange: Exchange,
    pub sell_exchange: Exchange,
    pub symbol: Symbol,
    pub net_spread_pct: Dec,
    pub gross_spread_pct: Dec,
    pub estimated_profit_usd: Dec,
    pub max_qty: Dec,
    pub buy_price_usd: Dec,
    pub sell_price_usd: Dec,
    pub timestamp: i128,
}

/// The kept form of a signal.
pub open spec fn stored_of(s: ArbitrageSignal) -> StoredSignal {
    StoredSignal {
        buy_exchange: s.buy_exchange,
        sell_exchange: s.sell_exchange,
        symbol: s.symbol,
        net_spread_pct: s.net_spread_pct,
        gross_spread_pct: s.gross_spread_pct,
        estimated_profit_usd: s.estimated_profit_usd,
        max_qty: s.max_qty,
        buy_price_usd: s.buy_price_usd,
        sell_price_usd: s.sell_price_usd,
        timestamp: s.timestamp,
    }
}

impl StoredSignal {
    /// The kept form of a signal.
    pub fn from_signal(s: &ArbitrageSignal) -> (r: StoredSignal)
        ensures
            r == stored_of(*s),
    {
        StoredSignal {
            buy_exchange: s.buy_exchange,
            sell_exchange: s.sell_exchange,
            symbol: s.symbol,
            net_spread_pct: s.net_spread_pct,
            gross_spread_pct: s.gross_spread_pct,
            estimated_profit_usd: s.estimated_profit_usd,
            max_qty: s.max_qty,
            buy_price_usd: s.buy_price_usd,
            sell_price_usd: s.sell_price_usd,
            timestamp: s.timestamp,
        }
    }
}

/// A kept quote sample.
#[derive(Clone, Copy, Debug)]
pub struct TickerSnapshot {
    pub bid_usd: Dec,
    pub ask_usd: Dec,
    pub raw_bid: Dec,
    pub raw_ask: Dec,
    pub timestamp: i128,
}

/// The kept form of a normalized quote.
pub open spec fn snapshot_of(t: NormalizedTicker) -> TickerSnapshot {
    TickerSnapshot {
        bid_usd: t.best_bid_usd,
        ask_usd: t.best_ask_usd,
        raw_bid: t.raw_bid,
        raw_ask: t.raw_ask,
        timestamp: t.timestamp,
    }
}

/// A kept exchange rate.
#[derive(Clone, Copy, Debug)]
pub struct RateEntry {
    pub krw_per_usd: Dec,
    pub source: RateSource,
    pub timestamp: i128,
}

/// Counts of what is kept, and the estimated bytes they take
/// (160 per signal, 80 per quote sample, 32 per rate, plus 1024).
#[derive(Clone, Copy, Debug)]
pub struct MemoryCounts {
    pub signals_count: usize,
    pub signals_cap: usize,
    pub ticker_pairs: usize,
    pub ticker_total_entries: usize,
    pub ticker_cap_per_pair: usize,
    pub rates_count: usize,
    pub rates_cap: usize,
    pub estimated_bytes: usize,
}

/// Number of present histories.
pub open spec fn present_count(h: Seq<Option<Seq<TickerSnapshot>>>) -> nat
    decreases h.len(),
{
    if h.len() == 0 {
        0
    } else {
        present_count(h.drop_last()) + (if h.last() is Some {
            1nat
        } else {
            0nat
        })
    }
}

/// Total samples in all histories.
pub open spec fn total_samples(h: Seq<Option<Seq<TickerSnapshot>>>) -> nat
    decreases h.len(),
{
    if h.len() == 0 {
        0
    } else {
        total_samples(h.drop_last()) + match h.last() {
            Some(s) => s.len(),
            None => 0,
        }
    }
}

/// Histories of at most `cap` samples each hold at most `cap` per history in
/// total, and at most one present history per entry.
proof fn lemma_histories_bounded(h: Seq<Option<Seq<TickerSnapshot>>>, cap: nat)
    requires
        forall|i: int| 0 <= i < h.len() ==> (#[trigger] h[i] matches Some(x) ==> x.len() <= cap),
    ensures
        total_samples(h) <= h.len() * cap,
        present_count(h) <= h.len(),
    decreases h.len(),
{
    if h.len() > 0 {
        let p = h.drop_last();
        assert forall|i: int| 0 <= i < p.len() implies (#[trigger] p[i] matches Some(x) ==> x.len() <= cap) by {
            assert(p[i] == h[i]);
        }
        lemma_histories_bounded(p, cap);
        assert(h.last() == h[h.len() - 1]);
        assert(h.len() * cap == p.len() * cap + cap) by (nonlinear_arith)
            requires
                p.len() + 1 == h.len(),
        ;
    }
}

/// A quote sample is kept when none was kept before for its key, or the
/// last kept one is at least 5000 whole milliseconds older.
pub open spec fn sample_due(last: Option<i128>, ts: i128) -> bool {
    match last {
        Some(prev) => whole_millis(ts, prev) >= TICKER_SAMPLE_INTERVAL_MS,
        None => true,
    }
}

/// The kept samples of a key and its last sample time agree, and
/// consecutive kept samples are at least 5000 whole milliseconds apart.
pub open spec fn spaced(h: Option<Seq<TickerSnapshot>>, last: Option<i128>) -> bool {
    match h {
        None => last is None,
        Some(s) => {
            &&& s.len() > 0
            &&& last == Some(s.last().timestamp)
            &&& forall|i: int, j: int|
                0 <= i && j == i + 1 && j < s.len() ==> whole_millis(#[trigger] s[j].timestamp, #[trigger] s[i].timestamp)
                    >= TICKER_SAMPLE_INTERVAL_MS
        },
    }
}

/// Keeping a due sample keeps the history spaced.
proof fn lemma_spaced_push(h: Option<Seq<TickerSnapshot>>, last: Option<i128>, snap: TickerSnapshot)
    requires
        spaced(h, last),
        sample_due(last, snap.timestamp),
    ensures
        spaced(
            Some(bounded_push(
                match h {
                    Some(x) => x,
                    None => Seq::empty(),
                },
                MAX_TICKER_PER_PAIR as nat,
                snap,
            )),
            Some(snap.timestamp),
        ),
{
    let old_s = match h {
        Some(x) => x,
        None => Seq::<TickerSnapshot>::empty(),
    };
    let n = bounded_push(old_s, MAX_TICKER_PER_PAIR as nat, snap);
    let kept = if old_s.len() >= MAX_TICKER_PER_PAIR && old_s.len() > 0 {
        old_s.drop_first()
    } else {
        old_s
    };
    assert(n == kept.push(snap));
    assert forall|i: int, j: int|
        0 <= i && j == i + 1 && j < n.len() implies whole_millis(#[trigger] n[j].timestamp, #[trigger] n[i].timestamp)
        >= TICKER_SAMPLE_INTERVAL_MS by {
        if j < kept.len() {
            if old_s.len() >= MAX_TICKER_PER_PAIR && old_s.len() > 0 {
                assert(n[i] == old_s[i + 1] && n[j] == old_s[j + 1]);
                assert(whole_millis(old_s[j + 1].timestamp, old_s[i + 1].timestamp) >= TICKER_SAMPLE_INTERVAL_MS);
            } else {
                assert(n[i] == old_s[i] && n[j] == old_s[j]);
                assert(whole_millis(old_s[j].timestamp, old_s[i].timestamp) >= TICKER_SAMPLE_INTERVAL_MS);
            }
        } else {
            assert(n[j] == snap);
            assert(kept.len() > 0);
            assert(n[i] == kept.last());
            assert(kept.last() == old_s.last());
        }
    }
}

/// The signals recorded at or after `cutoff`, oldest first.
pub open spec fn signals_since_spec(signals: Seq<StoredSignal>, cutoff: i128) -> Seq<StoredSignal> {
    signals.filter(|s: StoredSignal| s.timestamp >= cutoff)
}

/// Bounded storage of signals, quote samples and rates.
pub struct DataStore {
    signals: VecDeque<StoredSignal>,
    tickers: HashMap<usize, VecDeque<TickerSnapshot>>,
    ticker_last_sample: HashMap<usize, i128>,
    latest_tickers: HashMap<usize, TickerSnapshot>,
    rates: VecDeque<RateEntry>,
    latest_rate: Option<RateEntry>,
}

impl DataStore {
    /// Kept signals, oldest first.
    pub closed spec fn signals(self) -> Seq<StoredSignal> {
        self.signals@
    }

    /// Kept quote samples per slot, oldest first (`None` before the first).
    pub closed spec fn histories(self) -> Seq<Option<Seq<TickerSnapshot>>> {
        Seq::new(
            16,
            |i: int|
                if self.tickers@.contains_key(i as usize) {
                    Some(self.tickers@[i as usize]@)
                } else {
                    None
                },
        )
    }

    /// Time of the last kept sample per slot.
    pub closed spec fn last_samples(self) -> Seq<Option<i128>> {
        slot_entries(self.ticker_last_sample@)
    }

    /// Latest quote per slot (every quote, not only kept samples).
    pub closed spec fn latest_quotes(self) -> Seq<Option<TickerSnapshot>> {
        slot_entries(self.latest_tickers@)
    }

    /// Kept rates, oldest first.
    pub closed spec fn rate_history(self) -> Seq<RateEntry> {
        self.rates@
    }

    /// The latest rate.
    pub closed spec fn last_rate(self) -> Option<RateEntry> {
        self.latest_rate
    }

    /// Every table is keyed by slots, every buffer is within its cap, and
    /// kept samples are spaced.
    pub closed spec fn wf(self) -> bool {
        &&& forall|k: usize| #[trigger] self.tickers@.contains_key(k) ==> k < 16
        &&& forall|k: usize| #[trigger] self.ticker_last_sample@.contains_key(k) ==> k < 16
        &&& forall|k: usize| #[trigger] self.latest_tickers@.contains_key(k) ==> k < 16
        &&& self.signals@.len() <= MAX_SIGNALS
        &&& self.rates@.len() <= MAX_RATES
        &&& forall|i: int|
            0 <= i < 16 ==> (#[trigger] self.histories()[i] matches Some(h) ==> h.len() <= MAX_TICKER_PER_PAIR)
        &&& forall|i: int| 0 <= i < 16 ==> spaced(#[trigger] self.histories()[i], self.last_samples()[i])
    }

    /// The memory budget: a well-formed store keeps at most 100000 signals,
    /// 10800 quote samples for each of its 16 keys and 10000 rates, so its
    /// estimated size (160 bytes a signal, 80 a sample, 32 a rate, plus
    /// 1024) never exceeds that of full buffers.
    pub proof fn lemma_within_budget(self)
        requires
            self.wf(),
        ensures
            self.signals().len() <= MAX_SIGNALS,
            self.rate_history().len() <= MAX_RATES,
            self.histories().len() == 16,
            self.last_samples().len() == 16,
            self.latest_quotes().len() == 16,
            forall|i: int| 0 <= i < 16 ==> (#[trigger] self.histories()[i] matches Some(h) ==> h.len() <= MAX_TICKER_PER_PAIR),
            present_count(self.histories()) <= 16,
            total_samples(self.histories()) <= 16 * MAX_TICKER_PER_PAIR,
            self.signals().len() * 160 + total_samples(self.histories()) * 80 + self.rate_history().len() * 32 + 1024
                <= MAX_SIGNALS * 160 + 16 * MAX_TICKER_PER_PAIR * 80 + MAX_RATES * 32 + 1024,
    {
        lemma_histories_bounded(self.histories(), MAX_TICKER_PER_PAIR as nat);
    }

    /// There is one entry per (venue, symbol) slot in each per-key table.
    pub proof fn lemma_tables_sized(self)
        ensures
            self.histories().len() == 16,
            self.last_samples().len() == 16,
            self.latest_quotes().len() == 16,
    {
    }

    /// Down-sampling: in a well-formed store, the kept quote samples of every
    /// (venue, symbol) key are at least 5000 whole milliseconds apart, and the
    /// key's last sample time is that of its newest kept sample.
    pub proof fn lemma_samples_spaced(self)
        requires
            self.wf(),
        ensures
            forall|e: Exchange, s: Symbol| spaced(#[trigger] self.histories()[slot(e, s)], self.last_samples()[slot(e, s)]),
    {
        assert forall|e: Exchange, s: Symbol| spaced(#[trigger] self.histories()[slot(e, s)], self.last_samples()[slot(e, s)]) by {
            lemma_slot_bijective(e, s, e, s);
        }
    }

    /// An empty store.
    pub fn new() -> (r: Self)
        ensures
            r.wf(),
            r.signals() == Seq::<StoredSignal>::empty(),
            r.rate_history() == Seq::<RateEntry>::empty(),
            r.last_rate() is None,
            forall|i: int| 0 <= i < 16 ==> r.histories()[i] is None && r.last_samples()[i] is None
                && r.latest_quotes()[i] is None,
    {
        let tickers: HashMap<usize, VecDeque<TickerSnapshot>> = HashMap::new();
        let last: HashMap<usize, i128> = HashMap::new();
        let latest: HashMap<usize, TickerSnapshot> = HashMap::new();
        DataStore {
            signals: VecDeque::with_capacity(MAX_SIGNALS),
            tickers,
            ticker_last_sample: last,
            latest_tickers: latest,
            rates: VecDeque::with_capacity(MAX_RATES),
            latest_rate: None,
        }
    }

    /// Keeps a signal, dropping the oldest once 100000 are kept.
    pub fn push_signal(&mut self, signal: &ArbitrageSignal)
        requires
            old(self).wf(),
        ensures
            final(self).wf(),
            final(self).signals() == bounded_push(old(self).signals(), MAX_SIGNALS as nat, stored_of(*signal)),
            final(self).histories() == old(self).histories(),
            final(self).last_samples() == old(self).last_samples(),
            final(self).latest_quotes() == old(self).latest_quotes(),
            final(self).rate_history() == old(self).rate_history(),
            final(self).last_rate() == old(self).last_rate(),
    {
        let stored = StoredSignal::from_signal(signal);
        push_bounded_deque(&mut self.signals, MAX_SIGNALS, stored);
        proof {
            assert(self.histories() =~= old(self).histories());
        }
    }

    /// Records a normalized quote: always as the latest of its key, and as a
    /// kept sample when `sample_due` (then dropping the oldest sample once
    /// 10800 are kept for the key).
    pub fn push_ticker(&mut self, t: &NormalizedTicker)
        requires
            old(self).wf(),
        ensures
            final(self).wf(),
            final(self).latest_quotes() == old(self).latest_quotes().update(slot(t.exchange, t.symbol), Some(snapshot_of(*t))),
            final(self).latest_quotes()[slot(t.exchange, t.symbol)] == Some(snapshot_of(*t)),
            sample_due(old(self).last_samples()[slot(t.exchange, t.symbol)], t.timestamp)
                ==> final(self).last_samples()[slot(t.exchange, t.symbol)] == Some(t.timestamp),
            sample_due(old(self).last_samples()[slot(t.exchange, t.symbol)], t.timestamp) ==> {
                &&& final(self).last_samples() == old(self).last_samples().update(slot(t.exchange, t.symbol), Some(t.timestamp))
                &&& final(self).histories() == old(self).histories().update(
                    slot(t.exchange, t.symbol),
                    Some(bounded_push(
                        match old(self).histories()[slot(t.exchange, t.symbol)] {
                            Some(h) => h,
                            None => Seq::empty(),
                        },
                        MAX_TICKER_PER_PAIR as nat,
                        snapshot_of(*t),
                    )),
                )
            },
            !sample_due(old(self).last_samples()[slot(t.exchange, t.symbol)], t.timestamp) ==> {
                &&& final(self).last_samples() == old(self).last_samples()
                &&& final(self).histories() == old(self).histories()
            },
            final(self).signals() == old(self).signals(),
            final(self).rate_history() == old(self).rate_history(),
            final(self).last_rate() == old(self).last_rate(),
    {
        let key = slot_of(t.exchange, t.symbol);
        let snap = TickerSnapshot {
            bid_usd: t.best_bid_usd,
            ask_usd: t.best_ask_usd,
            raw_bid: t.raw_bid,
            raw_ask: t.raw_ask,
            timestamp: t.timestamp,
        };
        proof {
            lemma_slot_bijective(t.exchange, t.symbol, t.exchange, t.symbol);
        }
        self.latest_tickers.insert(key, snap);
        proof {
            assert(self.latest_quotes() =~= old(self).latest_quotes().update(key as int, Some(snap)));
        }
        let should_store = match self.ticker_last_sample.get(&key) {
            Some(ts) => millis_at_least(t.timestamp, *ts, TICKER_SAMPLE_INTERVAL_MS),
            None => true,
        };
        if should_store {
            self.ticker_last_sample.insert(key, t.timestamp);
            let mut buf = match self.tickers.remove(&key) {
                Some(b) => b,
                None => VecDeque::with_capacity(MAX_TICKER_PER_PAIR),
            };
            proof {
                lemma_spaced_push(old(self).histories()[key as int], old(self).last_samples()[key as int], snap);
            }
            push_bounded_deque(&mut buf, MAX_TICKER_PER_PAIR, snap);
            self.tickers.insert(key, buf);
            proof {
                assert(self.last_samples() =~= old(self).last_samples().update(key as int, Some(t.timestamp)));
                assert(self.histories() =~= old(self).histories().update(key as int, Some(buf@)));
                assert forall|i: int| 0 <= i < 16 implies spaced(
                    #[trigger] self.histories()[i],
                    self.last_samples()[i],
                ) by {
                    if i != key {
                        assert(self.histories()[i] == old(self).histories()[i]);
                        assert(self.last_samples()[i] == old(self).last_samples()[i]);
                    }
                }
            }
        } else {
            proof {
                assert(self.histories() =~= old(self).histories());
                assert(self.last_samples() =~= old(self).last_samples());
            }
        }
    }

    /// Records a rate as the latest and keeps it, dropping the oldest once
    /// 10000 are kept.
    pub fn push_rate(&mut self, rate: &ExchangeRate)
        requires
            old(self).wf(),
        ensures
            final(self).wf(),
            final(self).last_rate() == Some(
                RateEntry { krw_per_usd: rate.krw_per_usd, source: rate.source, timestamp: rate.timestamp },
            ),
            final(self).rate_history() == bounded_push(
                old(self).rate_history(),
                MAX_RATES as nat,
                RateEntry { krw_per_usd: rate.krw_per_usd, source: rate.source, timestamp: rate.timestamp },
            ),
            final(self).signals() == old(self).signals(),
            final(self).histories() == old(self).histories(),
            final(self).last_samples() == old(self).last_samples(),
            final(self).latest_quotes() == old(self).latest_quotes(),
    {
        let entry = RateEntry { krw_per_usd: rate.krw_per_usd, source: rate.source, timestamp: rate.timestamp };
        self.latest_rate = Some(entry);
        push_bounded_deque(&mut self.rates, MAX_RATES, entry);
        proof {
            assert(self.histories() =~= old(self).histories());
        }
    }

    /// The latest quote of a key.
    pub fn latest_ticker(&self, e: Exchange, s: Symbol) -> (r: Option<TickerSnapshot>)
        requires
            self.wf(),
        ensures
            r == self.latest_quotes()[slot(e, s)],
    {
        proof {
            lemma_slot_bijective(e, s, e, s);
        }
        match self.latest_tickers.get(&slot_of(e, s)) {
            Some(x) => Some(*x),
            None => None,
        }
    }

    /// The latest rate.
    pub fn latest_rate(&self) -> (r: Option<RateEntry>)
        ensures
            r == self.last_rate(),
    {
        self.latest_rate
    }

    /// The most recent `n` signals, newest first.
    pub fn recent_signals(&self, n: usize) -> (r: Vec<StoredSignal>)
        ensures
            r@.len() == if n < self.signals().len() {
                n as int
            } else {
                self.signals().len() as int
            },
            forall|i: int| 0 <= i < r@.len() ==> #[trigger] r@[i] == self.signals()[self.signals().len() - 1 - i],
    {
        let len = self.signals.len();
        let mut out: Vec<StoredSignal> = Vec::new();
        let mut i: usize = 0;
        while i < n && i < len
            invariant
                len == self.signals@.len(),
                i <= len,
                i <= n,
                out@.len() == i,
                forall|k: int| 0 <= k < i ==> #[trigger] out@[k] == self.signals@[len - 1 - k],
            decreases len - i,
        {
            out.push(self.signals[len - 1 - i]);
            i += 1;
        }
        out
    }

    /// The signals recorded at or after `cutoff` (nanoseconds), oldest first.
    pub fn signals_since(&self, cutoff: i128) -> (r: Vec<StoredSignal>)
        ensures
            r@ == signals_since_spec(self.signals(), cutoff),
    {
        let len = self.signals.len();
        let mut out: Vec<StoredSignal> = Vec::new();
        let mut i: usize = 0;
        while i < len
            invariant
                len == self.signals@.len(),
                i <= len,
                out@ == signals_since_spec(self.signals@.subrange(0, i as int), cutoff),
            decreases len - i,
        {
            let s = self.signals[i];
            if s.timestamp >= cutoff {
                out.push(s);
            }
            proof {
                let pre = self.signals@.subrange(0, i + 1);
                assert(pre.drop_last() =~= self.signals@.subrange(0, i as int));
                reveal_with_fuel(Seq::filter, 1);
            }
            i += 1;
        }
        proof {
            assert(self.signals@.subrange(0, len as int) =~= self.signals@);
        }
        out
    }

    /// The signals of a period (see `Period::cutoff`), oldest first.
    pub fn signals_in_period(&self, period: Period) -> (r: Vec<StoredSignal>)
        ensures
            exists|now: i128| r@ == signals_since_spec(self.signals(), #[trigger] period.cutoff_spec(now)),
    {
        let now = now_nanos();
        let cutoff = period.cutoff_at(now);
        self.signals_since(cutoff)
    }

    /// Counts of what is kept, with the estimated bytes.
    pub fn memory_counts(&self) -> (r: MemoryCounts)
        requires
            self.wf(),
        ensures
            r.signals_count == self.signals().len(),
            r.signals_cap == MAX_SIGNALS,
            r.ticker_pairs == present_count(self.histories()),
            r.ticker_total_entries == total_samples(self.histories()),
            r.ticker_cap_per_pair == MAX_TICKER_PER_PAIR,
            r.rates_count == self.rate_history().len(),
            r.rates_cap == MAX_RATES,
            r.estimated_bytes == r.signals_count * 160 + r.ticker_total_entries * 80 + r.rates_count * 32 + 1024,
    {
        let signals_count = self.signals.len();
        let mut pairs: usize = 0;
        let mut total: usize = 0;
        let mut i: usize = 0;
        while i < 16
            invariant
                i <= 16,
                self.wf(),
                pairs == present_count(self.histories().subrange(0, i as int)),
                total == total_samples(self.histories().subrange(0, i as int)),
                pairs <= i,
                total <= i * MAX_TICKER_PER_PAIR,
            decreases 16 - i,
        {
            let ghost h = self.histories();
            proof {
                assert(h.subrange(0, i + 1).drop_last() =~= h.subrange(0, i as int));
                assert(h.subrange(0, i + 1).last() == h[i as int]);
            }
            match self.tickers.get(&i) {
                Some(d) => {
                    pairs += 1;
                    total += d.len();
                },
                None => {},
            }
            i += 1;
        }
        proof {
            assert(self.histories().subrange(0, 16) =~= self.histories());
        }
        let rates_count = self.rates.len();
        MemoryCounts {
            signals_count,
            signals_cap: MAX_SIGNALS,
            ticker_pairs: pairs,
            ticker_total_entries: total,
            ticker_cap_per_pair: MAX_TICKER_PER_PAIR,
            rates_count,
            rates_cap: MAX_RATES,
            estimated_bytes: signals_count * 160 + total * 80 + rates_count * 32 + 1024,
        }
    }
}

/// Indices of the cumulative-profit points over `n` signals: every
/// `max(n / 200, 1)`-th index and the last one, in increasing order.
pub open spec fn is_cumulative_point(i: int, n: int) -> bool {
    let step = if n / 200 > 1 {
        n / 200
    } else {
        1
    };
    0 <= i < n && (i % step == 0 || i == n - 1)
}

/// The indices at which the cumulative profit series takes a point.
pub fn cumulative_point_indices(n: usize) -> (r: Vec<usize>)
    ensures
        forall|a: int, b: int| 0 <= a < b < r@.len() ==> r@[a] < r@[b],
        forall|a: int| 0 <= a < r@.len() ==> is_cumulative_point(#[trigger] r@[a] as int, n as int),
        forall|i: int| #[trigger] is_cumulative_point(i, n as int) ==> r@.contains(i as usize),
{
    let step: usize = if n / 200 > 1 {
        n / 200
    } else {
        1
    };
    let mut out: Vec<usize> = Vec::new();
    let mut i: usize = 0;
    while i < n
        invariant
            i <= n,
            step == (if n / 200 > 1 {
                n / 200
            } else {
                1
            }),
            forall|a: int, b: int| 0 <= a < b < out@.len() ==> out@[a] < out@[b],
            forall|a: int| 0 <= a < out@.len() ==> out@[a] < i && is_cumulative_point(#[trigger] out@[a] as int, n as int),
            forall|k: int| 0 <= k < i && #[trigger] is_cumulative_point(k, n as int) ==> out@.contains(k as usize),
        decreases n - i,
    {
        let ghost prev = out@;
        if i % step == 0 || i == n - 1 {
            out.push(i);
            proof {
                assert(out@[out@.len() - 1] == i);
            }
        }
        proof {
            assert forall|k: int| 0 <= k < i + 1 && #[trigger] is_cumulative_point(k, n as int) implies out@.contains(
                k as usize,
            ) by {
                if k == i {
                    assert(out@[out@.len() - 1] == i);
                } else {
                    assert(prev.contains(k as usize));
                    let j = choose|j: int| 0 <= j < prev.len() && prev[j] == k as usize;
                    assert(out@[j] == prev[j]);
                }
            }
        }
        i += 1;
    }
    out
}

/// How many of the signals are for symbol `s`.
pub open spec fn symbol_count(sigs: Seq<StoredSignal>, s: Symbol) -> nat {
    sigs.filter(|x: StoredSignal| x.symbol == s).len()
}

/// How many of the signals buy on `b` and sell on `s`.
pub open spec fn pair_count(sigs: Seq<StoredSignal>, b: Exchange, s: Exchange) -> nat {
    sigs.filter(|x: StoredSignal| x.buy_exchange == b && x.sell_exchange == s).len()
}

/// Signal counts per symbol (at the symbol's position BTC, ETH, SOL, XRP)
/// and per venue pair (at `4 * buy + sell`, venues in the scan order).
#[derive(Clone, Debug)]
pub struct SignalCounts {
    pub by_symbol: Vec<usize>,
    pub by_pair: Vec<usize>,
}

fn symbol_pos(s: Symbol) -> (r: usize)
    ensures
        r == symbol_index(s),
{
    match s {
        Symbol::BTC => 0,
        Symbol::ETH => 1,
        Symbol::SOL => 2,
        Symbol::XRP => 3,
    }
}

fn exchange_pos(e: Exchange) -> (r: usize)
    ensures
        r == exchange_index(e),
{
    match e {
        Exchange::Binance => 0,
        Exchange::Bybit => 1,
        Exchange::Upbit => 2,
        Exchange::Bithumb => 3,
    }
}

/// Counts the signals per symbol and per venue pair.
pub fn count_signals(sigs: &Vec<StoredSignal>) -> (r: SignalCounts)
    ensures
        r.by_symbol@.len() == 4,
        r.by_pair@.len() == 16,
        forall|s: Symbol| #[trigger] r.by_symbol@[symbol_index(s)] == symbol_count(sigs@, s),
        forall|b: Exchange, s: Exchange|
            #[trigger] r.by_pair@[exchange_index(b) * 4 + exchange_index(s)] == pair_count(sigs@, b, s),
{
    let mut by_symbol: Vec<usize> = vec![0, 0, 0, 0];
    let mut by_pair: Vec<usize> = vec![0, 0, 0, 0, 0, 0, 0, 0, 0, 0, 0, 0, 0, 0, 0, 0];
    let mut i: usize = 0;
    proof {
        let e = sigs@.subrange(0, 0);
        assert(e =~= Seq::<StoredSignal>::empty());
        assert forall|s: Symbol| #[trigger] by_symbol@[symbol_index(s)] == symbol_count(e, s) by {
            reveal_with_fuel(Seq::filter, 1);
        }
        assert forall|b: Exchange, s: Exchange|
            #[trigger] by_pair@[exchange_index(b) * 4 + exchange_index(s)] == pair_count(e, b, s) by {
            reveal_with_fuel(Seq::filter, 1);
        }
    }
    while i < sigs.len()
        invariant
            i <= sigs@.len(),
            by_symbol@.len() == 4,
            by_pair@.len() == 16,
            forall|s: Symbol| #[trigger] by_symbol@[symbol_index(s)] == symbol_count(sigs@.subrange(0, i as int), s),
            forall|b: Exchange, s: Exchange|
                #[trigger] by_pair@[exchange_index(b) * 4 + exchange_index(s)] == pair_count(
                    sigs@.subrange(0, i as int),
                    b,
                    s,
                ),
        decreases sigs@.len() - i,
    {
        let x = sigs[i];
        let ghost pre = sigs@.subrange(0, i as int);
        let ghost old_sym = by_symbol@;
        let ghost old_pair = by_pair@;
        proof {
            assert(sigs@.subrange(0, i + 1) =~= pre.push(x));
            assert forall|s: Symbol| symbol_count(pre, s) <= i by {
                pre.lemma_filter_len(|y: StoredSignal| y.symbol == s);
            }
            assert forall|b: Exchange, s: Exchange| pair_count(pre, b, s) <= i by {
                pre.lemma_filter_len(|y: StoredSignal| y.buy_exchange == b && y.sell_exchange == s);
            }
        }
        let k = symbol_pos(x.symbol);
        let c = by_symbol[k];
        by_symbol.set(k, c + 1);
        let m = exchange_pos(x.buy_exchange) * 4 + exchange_pos(x.sell_exchange);
        let c2 = by_pair[m];
        by_pair.set(m, c2 + 1);
        proof {
            assert forall|s: Symbol| #[trigger] by_symbol@[symbol_index(s)] == symbol_count(
                sigs@.subrange(0, i + 1),
                s,
            ) by {
                pre.lemma_filter_push(x, |y: StoredSignal| y.symbol == s);
                if s != x.symbol {
                    assert(symbol_index(s) != symbol_index(x.symbol));
                    assert(by_symbol@[symbol_index(s)] == old_sym[symbol_index(s)]);
                }
            }
            assert forall|b: Exchange, s: Exchange|
                #[trigger] by_pair@[exchange_index(b) * 4 + exchange_index(s)] == pair_count(
                    sigs@.subrange(0, i + 1),
                    b,
                    s,
                ) by {
                pre.lemma_filter_push(x, |y: StoredSignal| y.buy_exchange == b && y.sell_exchange == s);
                if !(b == x.buy_exchange && s == x.sell_exchange) {
                    assert(exchange_index(b) * 4 + exchange_index(s) != m);
                    assert(by_pair@[exchange_index(b) * 4 + exchange_index(s)] == old_pair[exchange_index(b) * 4
                        + exchange_index(s)]);
                }
            }
        }
        i += 1;
    }
    proof {
        assert(sigs@.subrange(0, sigs@.len() as int) =~= sigs@);
    }
    SignalCounts { by_symbol, by_pair }
}

// ============================================================
// Period
// ============================================================

/// A reporting period.
#[derive(Clone, Copy, Debug, PartialEq, Eq, Structural)]
pub enum Period {
    Hour1,
    Hour24,
    Day7,
    Day30,
    All,
}

/// The period a query parameter names: `1h`, `24h`, `7d`, `30d`, anything
/// else all time.
pub open spec fn period_of(s: Seq<char>) -> Period {
    if s == seq!['1', 'h'] {
        Period::Hour1
    } else if s == seq!['2', '4', 'h'] {
        Period::Hour24
    } else if s == seq!['7', 'd'] {
        Period::Day7
    } else if s == seq!['3', '0', 'd'] {
        Period::Day30
    } else {
        Period::All
    }
}

impl Period {
    /// The period a query parameter names.
    pub fn from_str(s: &str) -> (r: Period)
        ensures
            r == period_of(s@),
    {
        proof {
            reveal_strlit("1h");
            reveal_strlit("24h");
            reveal_strlit("7d");
            reveal_strlit("30d");
            assert("1h"@ =~= seq!['1', 'h']);
            assert("24h"@ =~= seq!['2', '4', 'h']);
            assert("7d"@ =~= seq!['7', 'd']);
            assert("30d"@ =~= seq!['3', '0', 'd']);
        }
        if crate::text::str_eq(s, "1h") {
            Period::Hour1
        } else if crate::text::str_eq(s, "24h") {
            Period::Hour24
        } else if crate::text::str_eq(s, "7d") {
            Period::Day7
        } else if crate::text::str_eq(s, "30d") {
            Period::Day30
        } else {
            Period::All
        }
    }

    /// Length of the period in nanoseconds (none for all time).
    pub open spec fn span_nanos(self) -> Option<int> {
        match self {
            Period::Hour1 => Some(3_600_000_000_000),
            Period::Hour24 => Some(86_400_000_000_000),
            Period::Day7 => Some(604_800_000_000_000),
            Period::Day30 => Some(2_592_000_000_000_000),
            Period::All => None,
        }
    }

    /// The earliest timestamp in the period ending at `now`; the least
    /// timestamp for all time.
    pub open spec fn cutoff_spec(self, now: i128) -> i128 {
        match self.span_nanos() {
            Some(d) => if now - d >= i128::MIN {
                (now - d) as i128
            } else {
                i128::MIN
            },
            None => i128::MIN,
        }
    }

    /// The earliest timestamp (nanoseconds) in the period ending at `now`.
    pub fn cutoff_at(&self, now: i128) -> (r: i128)
        ensures
            r == self.cutoff_spec(now),
    {
        let span: i128 = match self {
            Period::Hour1 => 3_600_000_000_000,
            Period::Hour24 => 86_400_000_000_000,
            Period::Day7 => 604_800_000_000_000,
            Period::Day30 => 2_592_000_000_000_000,
            Period::All => {
                return i128::MIN;
            },
        };
        if now >= i128::MIN + span {
            now - span
        } else {
            i128::MIN
        }
    }

    /// The earliest timestamp in the period ending now.
    pub fn cutoff(&self) -> (r: i128)
        ensures
            exists|now: i128| r == self.cutoff_spec(now),
    {
        let now = now_nanos();
        self.cutoff_at(now)
    }
}

} // verus!

//! Converts venue quotes to USD: KRW quotes are divided by KRW per USD,
//! USDT quotes multiplied by USD per USDT.

use vstd::prelude::*;

use std::sync::Arc;

use crate::decimal::{spec_div, spec_mul, ArithmeticOverflow};
use crate::models::{ExchangeRate, NormalizedTicker, QuoteCurrency, Ticker};
use crate::rates::{krw_live, usdt_live, RateManager};
use crate::time::now_nanos;

verus! {

/// The USD quote of `t` under the rates at time `now`. Outer `None`: an
/// operation overflowed; inner `None`: a KRW quote with no fresh (or a zero)
/// KRW per USD.
pub open spec fn normalize_spec(rm: RateManager, t: Ticker, now: i128) -> Option<Option<NormalizedTicker>> {
    match t.quote_currency {
        QuoteCurrency::USDT => {
            let u = usdt_live(rm.usdt(), rm.usdt_stale(), now);
            match (spec_mul(t.best_bid, u), spec_mul(t.best_ask, u)) {
                (Some(b), Some(a)) => Some(
                    Some(
                        NormalizedTicker {
                            exchange: t.exchange,
                            symbol: t.symbol,
                            best_bid_usd: b,
                            best_bid_qty: t.best_bid_qty,
                            best_ask_usd: a,
                            best_ask_qty: t.best_ask_qty,
                            raw_bid: t.best_bid,
                            raw_ask: t.best_ask,
                            quote_currency: t.quote_currency,
                            exchange_rate: None,
                            timestamp: t.timestamp,
                            local_timestamp: t.local_timestamp,
                        },
                    ),
                ),
                _ => None,
            }
        },
        QuoteCurrency::KRW => match krw_live(rm.krw(), rm.krw_stale(), now) {
            None => Some(None),
            Some(k) => if k@.0 == 0 {
                Some(None)
            } else {
                match (spec_div(t.best_bid, k), spec_div(t.best_ask, k)) {
                    (Some(b), Some(a)) => Some(
                        Some(
                            NormalizedTicker {
                                exchange: t.exchange,
                                symbol: t.symbol,
                                best_bid_usd: b,
                                best_bid_qty: t.best_bid_qty,
                                best_ask_usd: a,
                                best_ask_qty: t.best_ask_qty,
                                raw_bid: t.best_bid,
                                raw_ask: t.best_ask,
                                quote_currency: t.quote_currency,
                                exchange_rate: Some(k),
                                timestamp: t.timestamp,
                                local_timestamp: t.local_timestamp,
                            },
                        ),
                    ),
                    _ => None,
                }
            },
        },
    }
}

/// KRW per USD counts as missing in the same cases for the reported rate
/// and for normalization: where it is missing or stale at `now`, `get_rate`
/// reports no rate and a KRW quote is dropped; where it is fresh, a rate is
/// reported (unless the product overflows) and a KRW quote is dropped only
/// for a zero rate, and is converted with the rate's KRW per USD. A USDT
/// quote is never dropped for want of a rate.
pub proof fn lemma_krw_freshness_agrees(rm: RateManager, t: Ticker, now: i128)
    ensures
        krw_live(rm.krw(), rm.krw_stale(), now) is None ==> rm.rate_spec(now) == Some(None::<ExchangeRate>),
        krw_live(rm.krw(), rm.krw_stale(), now) is None && t.quote_currency == QuoteCurrency::KRW ==> normalize_spec(
            rm,
            t,
            now,
        ) == Some(None::<NormalizedTicker>),
        krw_live(rm.krw(), rm.krw_stale(), now) is Some ==> rm.rate_spec(now) != Some(None::<ExchangeRate>),
        krw_live(rm.krw(), rm.krw_stale(), now) matches Some(k) && k@.0 != 0 && t.quote_currency == QuoteCurrency::KRW
            ==> normalize_spec(rm, t, now) != Some(None::<NormalizedTicker>),
        t.quote_currency == QuoteCurrency::USDT ==> normalize_spec(rm, t, now) != Some(None::<NormalizedTicker>),
        match (normalize_spec(rm, t, now), rm.rate_spec(now)) {
            (Some(Some(n)), Some(Some(r))) => t.quote_currency == QuoteCurrency::KRW ==> n.exchange_rate == Some(
                r.krw_per_usd,
            ),
            _ => true,
        },
{
}

/// Normalization converts prices only: a converted quote keeps the venue,
/// symbol, quote currency and timestamps of the input, its raw bid and ask,
/// and its sizes (the bid size stays the bid size, the ask size the ask
/// size), for USDT and KRW quotes alike.
pub proof fn lemma_normalize_keeps_sizes(rm: RateManager, t: Ticker, now: i128)
    ensures
        normalize_spec(rm, t, now) matches Some(Some(n)) ==> {
            &&& n.best_bid_qty == t.best_bid_qty
            &&& n.best_ask_qty == t.best_ask_qty
            &&& n.raw_bid == t.best_bid
            &&& n.raw_ask == t.best_ask
            &&& n.exchange == t.exchange
            &&& n.symbol == t.symbol
            &&& n.quote_currency == t.quote_currency
            &&& n.timestamp == t.timestamp
            &&& n.local_timestamp == t.local_timestamp
        },
{
}

/// Each side is converted on its own: two quotes in the same currency,
/// normalized under the same rates at the same time, get the same USD bid
/// when their raw bids agree and the same USD ask when their raw asks agree,
/// whatever their other fields hold.
pub proof fn lemma_normalize_sides_independent(rm: RateManager, t1: Ticker, t2: Ticker, now: i128)
    requires
        t1.quote_currency == t2.quote_currency,
    ensures
        (normalize_spec(rm, t1, now), normalize_spec(rm, t2, now)) matches (Some(Some(n1)), Some(Some(n2))) ==> {
            &&& t1.best_bid == t2.best_bid ==> n1.best_bid_usd == n2.best_bid_usd
            &&& t1.best_ask == t2.best_ask ==> n1.best_ask_usd == n2.best_ask_usd
        },
{
}

/// Normalizes quotes with a snapshot of the rates.
pub struct Normalizer {
    rate_manager: Arc<RateManager>,
}

impl Normalizer {
    /// The rates this normalizer converts with.
    pub closed spec fn rates(self) -> RateManager {
        *self.rate_manager
    }

    /// A normalizer using the given rates.
    pub fn new(rate_manager: Arc<RateManager>) -> (r: Self)
        ensures
            r.rates() == *rate_manager,
    {
        Normalizer { rate_manager }
    }

    /// The USD quote at the current time (`price_usd = price_krw / krw_per_usd`
    /// or `price_usdt * usd_per_usdt`); `Ok(None)` for a KRW quote without a
    /// fresh nonzero KRW per USD; `Err` where an operation overflows.
    pub fn process(&self, ticker: &Ticker) -> (r: Result<Option<NormalizedTicker>, ArithmeticOverflow>)
        ensures
            exists|now: i128| match #[trigger] normalize_spec(self.rates(), *ticker, now) {
                None => r is Err,
                Some(x) => r == Ok::<Option<NormalizedTicker>, ArithmeticOverflow>(x),
            },
            r matches Ok(Some(n)) ==> {
                &&& n.best_bid_qty == ticker.best_bid_qty
                &&& n.best_ask_qty == ticker.best_ask_qty
                &&& n.raw_bid == ticker.best_bid
                &&& n.raw_ask == ticker.best_ask
            },
    {
        let now = now_nanos();
        self.process_at(ticker, now)
    }

    /// The USD quote as of time `now`.
    pub fn process_at(&self, ticker: &Ticker, now: i128) -> (r: Result<Option<NormalizedTicker>, ArithmeticOverflow>)
        ensures
            match normalize_spec(self.rates(), *ticker, now) {
                None => r is Err,
                Some(x) => r == Ok::<Option<NormalizedTicker>, ArithmeticOverflow>(x),
            },
            r matches Ok(Some(n)) ==> {
                &&& n.best_bid_qty == ticker.best_bid_qty
                &&& n.best_ask_qty == ticker.best_ask_qty
                &&& n.raw_bid == ticker.best_bid
                &&& n.raw_ask == ticker.best_ask
            },
    {
        match ticker.quote_currency {
            QuoteCurrency::USDT => {
                let u = self.rate_manager.usd_per_usdt_at(now);
                match (ticker.best_bid.checked_mul(u), ticker.best_ask.checked_mul(u)) {
                    (Some(b), Some(a)) => Ok(Some(NormalizedTicker {
                        exchange: ticker.exchange,
                        symbol: ticker.symbol,
                        best_bid_usd: b,
                        best_bid_qty: ticker.best_bid_qty,
                        best_ask_usd: a,
                        best_ask_qty: ticker.best_ask_qty,
                        raw_bid: ticker.best_bid,
                        raw_ask: ticker.best_ask,
                        quote_currency: ticker.quote_currency,
                        exchange_rate: None,
                        timestamp: ticker.timestamp,
                        local_timestamp: ticker.local_timestamp,
                    })),
                    _ => Err(ArithmeticOverflow),
                }
            },
            QuoteCurrency::KRW => {
                let k = match self.rate_manager.krw_per_usd_at(now) {
                    Some(k) => k,
                    None => {
                        return Ok(None);
                    },
                };
                if k.is_zero() {
                    return Ok(None);
                }
                match (ticker.best_bid.checked_div(k), ticker.best_ask.checked_div(k)) {
                    (Some(b), Some(a)) => Ok(Some(NormalizedTicker {
                        exchange: ticker.exchange,
                        symbol: ticker.symbol,
                        best_bid_usd: b,
                        best_bid_qty: ticker.best_bid_qty,
                        best_ask_usd: a,
                        best_ask_qty: ticker.best_ask_qty,
                        raw_bid: ticker.best_bid,
                        raw_ask: ticker.best_ask,
                        quote_currency: ticker.quote_currency,
                        exchange_rate: Some(k),
                        timestamp: ticker.timestamp,
                        local_timestamp: ticker.local_timestamp,
                    })),
                    _ => Err(ArithmeticOverflow),
                }
            },
        }
    }
}

} // verus!

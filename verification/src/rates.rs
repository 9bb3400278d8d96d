//! FX rates for USD normalization: KRW per USD (polled over REST, cached)
//! and USD per USDT (from a stablecoin pair's stream), each with a staleness
//! limit.

use vstd::prelude::*;

use crate::config::{EngineConfig, KrwUsdSource};
use crate::decimal::{decimal_parse, dec_lit, lift, model_le, spec_div, spec_mul, ArithmeticOverflow, Dec};
use crate::models::{ExchangeRate, RateSource};
use crate::json::{field, get_field, json_of, parse_json, Json};
use crate::text::{chars_of, trim, trimmed_of};
use crate::time::{now_nanos, seconds_over, whole_seconds};

verus! {

/// The cached KRW per USD and when it was stored (nanoseconds).
#[derive(Clone, Copy, Debug)]
pub struct KrwSnapshot {
    pub krw_per_usd: Dec,
    pub updated_at: i128,
    pub source: RateSource,
}

/// The cached USD value of 1 USDT and when it was stored (nanoseconds).
#[derive(Clone, Copy, Debug)]
pub struct UsdtSnapshot {
    pub usd_per_usdt: Dec,
    pub updated_at: i128,
}

/// The two cached rates and their staleness limits in seconds.
#[derive(Clone, Copy, Debug)]
pub struct RateManager {
    krw_usd: Option<KrwSnapshot>,
    usdt_usd: Option<UsdtSnapshot>,
    krw_stale_secs: i64,
    usdt_stale_secs: i64,
}

/// KRW per USD at time `now`: the cached value unless it is missing or older
/// than `stale` whole seconds.
pub open spec fn krw_live(krw: Option<KrwSnapshot>, stale: i64, now: i128) -> Option<Dec> {
    match krw {
        None => None,
        Some(s) => if whole_seconds(now, s.updated_at) > stale {
            None
        } else {
            Some(s.krw_per_usd)
        },
    }
}

/// USD per USDT at time `now`: the cached value, or one where it is missing
/// or older than `stale` whole seconds.
pub open spec fn usdt_live(usdt: Option<UsdtSnapshot>, stale: i64, now: i128) -> Dec {
    match usdt {
        None => dec_lit(1, 0),
        Some(s) => if whole_seconds(now, s.updated_at) > stale {
            dec_lit(1, 0)
        } else {
            s.usd_per_usdt
        },
    }
}

/// A KRW per USD value in the plausible range 500 to 5000.
pub open spec fn plausible_krw_per_usd(d: Dec) -> bool {
    model_le((500, 0), d@) && model_le(d@, (5000, 0))
}

/// The last plausible KRW per USD among the reported values (each trimmed
/// and parsed as a decimal).
pub open spec fn last_plausible(values: Seq<Option<Seq<char>>>) -> Option<Dec>
    decreases values.len(),
{
    if values.len() == 0 {
        None
    } else {
        let prev = last_plausible(values.drop_last());
        match values.last() {
            Some(s) => match lift(decimal_parse(trimmed_of(s))) {
                Some(d) => if plausible_krw_per_usd(d) {
                    Some(d)
                } else {
                    prev
                },
                None => prev,
            },
            None => prev,
        }
    }
}

/// The texts of optional strings.
pub open spec fn texts(values: Seq<Option<String>>) -> Seq<Option<Seq<char>>> {
    values.map_values(|o: Option<String>| opt_text(o))
}

/// The text of an optional string.
pub open spec fn opt_text(o: Option<String>) -> Option<Seq<char>> {
    match o {
        Some(s) => Some(s@),
        None => None,
    }
}

impl RateManager {
    /// The cached KRW per USD.
    pub closed spec fn krw(self) -> Option<KrwSnapshot> {
        self.krw_usd
    }

    /// The cached USD per USDT.
    pub closed spec fn usdt(self) -> Option<UsdtSnapshot> {
        self.usdt_usd
    }

    /// Seconds after which KRW per USD counts as missing.
    pub closed spec fn krw_stale(self) -> i64 {
        self.krw_stale_secs
    }

    /// Seconds after which USD per USDT falls back to one.
    pub closed spec fn usdt_stale(self) -> i64 {
        self.usdt_stale_secs
    }

    /// The exchange rate `get_rate` reports at time `now`; outer `None` where
    /// the product overflows.
    pub open spec fn rate_spec(self, now: i128) -> Option<Option<ExchangeRate>> {
        match krw_live(self.krw(), self.krw_stale(), now) {
            None => Some(None),
            Some(k) => {
                let u = usdt_live(self.usdt(), self.usdt_stale(), now);
                match spec_mul(k, u) {
                    None => None,
                    Some(ku) => Some(
                        Some(
                            ExchangeRate {
                                krw_per_usdt: ku,
                                usdt_per_usd: u,
                                krw_per_usd: k,
                                source: self.krw()->0.source,
                                timestamp: now,
                            },
                        ),
                    ),
                }
            },
        }
    }

    /// No cached rates; the staleness limits from the configuration.
    pub fn new(cfg: &EngineConfig) -> (r: Self)
        ensures
            r.krw() is None,
            r.usdt() is None,
            r.krw_stale() == cfg.krw_usd_stale_secs,
            r.usdt_stale() == cfg.usdt_usd_stale_secs,
    {
        RateManager {
            krw_usd: None,
            usdt_usd: None,
            krw_stale_secs: cfg.krw_usd_stale_secs,
            usdt_stale_secs: cfg.usdt_usd_stale_secs,
        }
    }

    /// Stores KRW per USD (from the REST poller), stamped with the current time.
    pub fn store_krw_per_usd(&mut self, krw_per_usd: Dec, source: RateSource)
        ensures
            final(self).krw() matches Some(s) && s.krw_per_usd == krw_per_usd && s.source == source,
            final(self).usdt() == old(self).usdt(),
            final(self).krw_stale() == old(self).krw_stale(),
            final(self).usdt_stale() == old(self).usdt_stale(),
    {
        let now = now_nanos();
        self.store_krw_per_usd_at(krw_per_usd, source, now);
    }

    /// Stores KRW per USD stamped with `now`.
    pub fn store_krw_per_usd_at(&mut self, krw_per_usd: Dec, source: RateSource, now: i128)
        ensures
            final(self).krw() == Some(KrwSnapshot { krw_per_usd, updated_at: now, source }),
            final(self).usdt() == old(self).usdt(),
            final(self).krw_stale() == old(self).krw_stale(),
            final(self).usdt_stale() == old(self).usdt_stale(),
    {
        self.krw_usd = Some(KrwSnapshot { krw_per_usd, updated_at: now, source });
    }

    /// From the mid price of the stablecoin pair, stores USD per USDT as
    /// `1 / mid` (which never overflows), stamped with the current time; a
    /// zero mid is ignored.
    pub fn update_usdt_usd_from_pair_mid(&mut self, mid: Dec)
        ensures
            mid@.0 == 0 ==> *final(self) == *old(self),
            mid@.0 != 0 ==> (spec_div(dec_lit(1, 0), mid) matches Some(u) && (final(self).usdt() matches Some(s)
                && s.usd_per_usdt == u)),
            final(self).krw() == old(self).krw(),
            final(self).krw_stale() == old(self).krw_stale(),
            final(self).usdt_stale() == old(self).usdt_stale(),
    {
        let now = now_nanos();
        self.update_usdt_usd_from_pair_mid_at(mid, now)
    }

    /// As `update_usdt_usd_from_pair_mid`, stamped with `now`.
    pub fn update_usdt_usd_from_pair_mid_at(&mut self, mid: Dec, now: i128)
        ensures
            mid@.0 == 0 ==> *final(self) == *old(self),
            mid@.0 != 0 ==> (spec_div(dec_lit(1, 0), mid) matches Some(u) && final(self).usdt() == Some(
                UsdtSnapshot { usd_per_usdt: u, updated_at: now },
            )),
            final(self).krw() == old(self).krw(),
            final(self).krw_stale() == old(self).krw_stale(),
            final(self).usdt_stale() == old(self).usdt_stale(),
    {
        if mid.is_zero() {
            return;
        }
        if let Some(u) = Dec::one().checked_div(mid) {
            self.usdt_usd = Some(UsdtSnapshot { usd_per_usdt: u, updated_at: now });
        }
    }

    /// KRW per USD if fresh at the current time.
    pub fn krw_per_usd_live(&self) -> (r: Option<Dec>)
        ensures
            exists|now: i128| r == krw_live(self.krw(), self.krw_stale(), now),
            r matches Some(x) ==> self.krw() matches Some(s) && x == s.krw_per_usd,
    {
        let now = now_nanos();
        self.krw_per_usd_at(now)
    }

    /// KRW per USD if fresh at time `now`.
    pub fn krw_per_usd_at(&self, now: i128) -> (r: Option<Dec>)
        ensures
            r == krw_live(self.krw(), self.krw_stale(), now),
    {
        match &self.krw_usd {
            None => None,
            Some(s) => {
                if seconds_over(now, s.updated_at, self.krw_stale_secs) {
                    None
                } else {
                    Some(s.krw_per_usd)
                }
            },
        }
    }

    /// USD per USDT at the current time; one when missing or stale.
    pub fn usd_per_usdt_live(&self) -> (r: Dec)
        ensures
            exists|now: i128| r == usdt_live(self.usdt(), self.usdt_stale(), now),
            r == dec_lit(1, 0) || (self.usdt() matches Some(s) && r == s.usd_per_usdt),
    {
        let now = now_nanos();
        self.usd_per_usdt_at(now)
    }

    /// USD per USDT at time `now`; one when missing or stale.
    pub fn usd_per_usdt_at(&self, now: i128) -> (r: Dec)
        ensures
            r == usdt_live(self.usdt(), self.usdt_stale(), now),
    {
        match &self.usdt_usd {
            None => Dec::one(),
            Some(s) => {
                if seconds_over(now, s.updated_at, self.usdt_stale_secs) {
                    Dec::one()
                } else {
                    s.usd_per_usdt
                }
            },
        }
    }

    /// The KRW/USDT/USD rates while KRW per USD is fresh, with KRW per USDT
    /// as `krw_per_usd * usd_per_usdt`, as of the current time (read once).
    /// `Err` where the product overflows.
    pub fn get_rate(&self) -> (r: Result<Option<ExchangeRate>, ArithmeticOverflow>)
        ensures
            exists|now: i128|
                match #[trigger] self.rate_spec(now) {
                    None => r is Err,
                    Some(x) => r == Ok::<Option<ExchangeRate>, ArithmeticOverflow>(x),
                },
            self.krw() is None ==> r == Ok::<Option<ExchangeRate>, ArithmeticOverflow>(None),
    {
        let now = now_nanos();
        self.get_rate_at(now)
    }

    /// The rates as of time `now`; `Err` exactly where the product overflows.
    pub fn get_rate_at(&self, now: i128) -> (r: Result<Option<ExchangeRate>, ArithmeticOverflow>)
        ensures
            match self.rate_spec(now) {
                None => r is Err,
                Some(x) => r == Ok::<Option<ExchangeRate>, ArithmeticOverflow>(x),
            },
    {
        match self.krw_per_usd_at(now) {
            None => Ok(None),
            Some(k) => {
                let u = self.usd_per_usdt_at(now);
                match k.checked_mul(u) {
                    None => Err(ArithmeticOverflow),
                    Some(ku) => {
                        let source = match &self.krw_usd {
                            Some(s) => s.source,
                            None => RateSource::External,
                        };
                        Ok(Some(ExchangeRate {
                            krw_per_usdt: ku,
                            usdt_per_usd: u,
                            krw_per_usd: k,
                            source,
                            timestamp: now,
                        }))
                    },
                }
            },
        }
    }
}

/// What a read gives back of a write: the KRW per USD last stored (at
/// `updated_at`) reads back unchanged while it is at most the staleness limit
/// old in whole seconds, in particular at the instant it was stored when the
/// limit is not negative, and as missing after; the USD per USDT last stored
/// reads back unchanged while fresh, and as one when stale or never stored.
pub proof fn lemma_read_back(m: RateManager, now: i128)
    ensures
        m.krw() matches Some(s) ==> krw_live(m.krw(), m.krw_stale(), now) == (if whole_seconds(now, s.updated_at)
            <= m.krw_stale() {
            Some(s.krw_per_usd)
        } else {
            None
        }),
        m.krw() matches Some(s) ==> (now == s.updated_at && m.krw_stale() >= 0 ==> krw_live(
            m.krw(),
            m.krw_stale(),
            now,
        ) == Some(s.krw_per_usd)),
        m.krw() is None ==> krw_live(m.krw(), m.krw_stale(), now) is None,
        m.usdt() matches Some(s) ==> usdt_live(m.usdt(), m.usdt_stale(), now) == (if whole_seconds(now, s.updated_at)
            <= m.usdt_stale() {
            s.usd_per_usdt
        } else {
            dec_lit(1, 0)
        }),
        m.usdt() is None ==> usdt_live(m.usdt(), m.usdt_stale(), now) == dec_lit(1, 0),
{
}

/// The rate source recorded for a configured KRW/USD source.
pub fn rate_source_for(src: KrwUsdSource) -> (r: RateSource)
    ensures
        r == (match src {
            KrwUsdSource::Yahoo => RateSource::Yahoo,
            KrwUsdSource::Bok => RateSource::Bok,
        }),
{
    match src {
        KrwUsdSource::Yahoo => RateSource::Yahoo,
        KrwUsdSource::Bok => RateSource::Bok,
    }
}

/// What one round of the KRW/USD poller fetches.
#[derive(Clone, Debug)]
pub enum PollPlan {
    /// Fetch Yahoo Finance's KRW=X quote.
    Yahoo,
    /// Fetch the BOK ECOS daily series with this API key.
    Bok(String),
    /// The BOK source is configured but no API key is set.
    MissingBokKey,
}

/// The fetch a poll round makes for the configuration.
pub fn poll_plan(config: &EngineConfig) -> (r: PollPlan)
    ensures
        config.krw_usd_source == KrwUsdSource::Yahoo ==> r is Yahoo,
        config.krw_usd_source == KrwUsdSource::Bok ==> match config.bok_api_key {
            Some(k) => r matches PollPlan::Bok(rk) && rk@ == k@,
            None => r is MissingBokKey,
        },
{
    match config.krw_usd_source {
        KrwUsdSource::Yahoo => PollPlan::Yahoo,
        KrwUsdSource::Bok => match &config.bok_api_key {
            Some(k) => PollPlan::Bok(k.clone()),
            None => PollPlan::MissingBokKey,
        },
    }
}

/// The last plausible (500 to 5000) KRW per USD among the `DATA_VALUE`s of a
/// BOK ECOS response, each trimmed and parsed as a decimal.
pub fn bok_rate_from_values(values: &Vec<Option<String>>) -> (r: Option<Dec>)
    ensures
        r == last_plausible(texts(values@)),
{
    let mut last_ok: Option<Dec> = None;
    let lo = Dec::new(500, 0);
    let hi = Dec::new(5000, 0);
    let mut i: usize = 0;
    while i < values.len()
        invariant
            i <= values@.len(),
            lo@ == (500int, 0nat),
            hi@ == (5000int, 0nat),
            last_ok == last_plausible(texts(values@.subrange(0, i as int))),
        decreases values@.len() - i,
    {
        match &values[i] {
            Some(s) => match Dec::parse(trim(s.as_str())) {
                Some(d) => {
                    if lo.le(&d) && d.le(&hi) {
                        last_ok = Some(d);
                    }
                    proof {
                        d.lemma_view_determines();
                    }
                },
                None => {},
            },
            None => {},
        }
        proof {
            assert(texts(values@.subrange(0, i + 1)).drop_last() =~= texts(values@.subrange(0, i as int)));
            assert(texts(values@.subrange(0, i + 1)).last() == opt_text(values@[i as int]));
        }
        i += 1;
    }
    proof {
        assert(values@.subrange(0, values@.len() as int) =~= values@);
    }
    last_ok
}

/// A number's text as `f64`'s `Display` writes it, from the text
/// `serde_json` renders: `serde_json` writes a whole-valued float with a
/// trailing `.0`, which `Display` omits. (Outside the plausible range the two
/// renderings can also differ in exponent notation; such values are
/// discarded either way.)
pub open spec fn float_text(n: Seq<char>) -> Seq<char> {
    if n.len() >= 2 && n[n.len() - 2] == '.' && n[n.len() - 1] == '0' {
        n.subrange(0, n.len() - 2)
    } else {
        n
    }
}

/// The `DATA_VALUE` of a BOK row: its text, or a number read as a float
/// and written out (see `float_text`).
pub open spec fn data_value(row: Json) -> Option<Seq<char>> {
    match field(row, "DATA_VALUE"@) {
        Some(Json::Text(s)) => Some(s@),
        Some(Json::Number(n)) => Some(float_text(n@)),
        _ => None,
    }
}

/// The `DATA_VALUE`s of a BOK ECOS response, in order: of the rows of the
/// `StatisticSearch.row` array, else of the `StatisticSearch.list` array,
/// else of the single `StatisticSearch.row` object; `None` where the
/// response has none of these.
pub open spec fn bok_values_spec(v: Json) -> Option<Seq<Option<Seq<char>>>> {
    let ss = field(v, "StatisticSearch"@);
    let row = match ss {
        Some(x) => field(x, "row"@),
        None => None,
    };
    let list = match ss {
        Some(x) => field(x, "list"@),
        None => None,
    };
    match row {
        Some(Json::Array(rows)) => Some(rows@.map_values(|r: Json| data_value(r))),
        _ => match list {
            Some(Json::Array(rows)) => Some(rows@.map_values(|r: Json| data_value(r))),
            _ => match row {
                Some(r) => if r is Object {
                    Some(seq![data_value(r)])
                } else {
                    None
                },
                None => None,
            },
        },
    }
}

/// Why a BOK ECOS response gave no rate.
#[derive(Clone, Copy, Debug, PartialEq, Eq, Structural)]
pub enum BokError {
    /// The body is not JSON.
    BadJson,
    /// The body has no `StatisticSearch` rows.
    MissingRows,
    /// No `DATA_VALUE` parses to a plausible KRW per USD.
    NoUsableValue,
}

/// The KRW per USD a BOK ECOS response body gives: the last plausible
/// `DATA_VALUE`, or why there is none.
pub open spec fn bok_rate_spec(text: Seq<char>) -> Result<Dec, BokError> {
    match json_of(text) {
        None => Err(BokError::BadJson),
        Some(v) => match bok_values_spec(v) {
            None => Err(BokError::MissingRows),
            Some(values) => match last_plausible(values) {
                None => Err(BokError::NoUsableValue),
                Some(d) => Ok(d),
            },
        },
    }
}

fn float_text_exec(n: &String) -> (r: String)
    ensures
        r@ == float_text(n@),
{
    let x = chars_of(n.as_str());
    let len = x.len();
    if len >= 2 && x[len - 2] == '.' && x[len - 1] == '0' {
        n.as_str().substring_char(0, len - 2).to_owned()
    } else {
        n.clone()
    }
}

fn data_value_exec(row: &Json) -> (r: Option<String>)
    ensures
        opt_text(r) == data_value(*row),
{
    match get_field(row, "DATA_VALUE") {
        Some(Json::Text(s)) => Some(s.clone()),
        Some(Json::Number(n)) => Some(float_text_exec(n)),
        _ => None,
    }
}

fn values_of_rows(rows: &Vec<Json>) -> (r: Vec<Option<String>>)
    ensures
        texts(r@) == rows@.map_values(|x: Json| data_value(x)),
{
    let mut out: Vec<Option<String>> = Vec::new();
    let mut i: usize = 0;
    while i < rows.len()
        invariant
            i <= rows@.len(),
            texts(out@) == rows@.subrange(0, i as int).map_values(|x: Json| data_value(x)),
        decreases rows@.len() - i,
    {
        let ghost before = out@;
        out.push(data_value_exec(&rows[i]));
        proof {
            assert(texts(out@) =~= texts(before).push(opt_text(out@[i as int])));
            assert(rows@.subrange(0, i + 1).map_values(|x: Json| data_value(x)) =~= rows@.subrange(
                0,
                i as int,
            ).map_values(|x: Json| data_value(x)).push(data_value(rows@[i as int])));
        }
        i += 1;
    }
    proof {
        assert(rows@.subrange(0, rows@.len() as int) =~= rows@);
    }
    out
}

/// The `DATA_VALUE`s of a parsed BOK ECOS response (see `bok_values_spec`).
pub fn bok_values(v: &Json) -> (r: Option<Vec<Option<String>>>)
    ensures
        match r {
            Some(x) => bok_values_spec(*v) == Some(texts(x@)),
            None => bok_values_spec(*v) is None,
        },
{
    let ss = get_field(v, "StatisticSearch");
    let row = match ss {
        Some(x) => get_field(x, "row"),
        None => None,
    };
    let list = match ss {
        Some(x) => get_field(x, "list"),
        None => None,
    };
    if let Some(Json::Array(rows)) = row {
        return Some(values_of_rows(rows));
    }
    if let Some(Json::Array(rows)) = list {
        return Some(values_of_rows(rows));
    }
    match row {
        Some(r) => match r {
            Json::Object(_) => {
                let mut out: Vec<Option<String>> = Vec::new();
                out.push(data_value_exec(r));
                proof {
                    assert(texts(out@) =~= seq![data_value(*r)]);
                }
                Some(out)
            },
            _ => None,
        },
        None => None,
    }
}

/// The KRW per USD in a BOK ECOS response body (see `bok_rate_spec`).
pub fn bok_rate_from_body(text: &str) -> (r: Result<Dec, BokError>)
    ensures
        r == bok_rate_spec(text@),
{
    let v = match parse_json(text) {
        Some(v) => v,
        None => {
            return Err(BokError::BadJson);
        },
    };
    let values = match bok_values(&v) {
        Some(x) => x,
        None => {
            return Err(BokError::MissingRows);
        },
    };
    match bok_rate_from_values(&values) {
        Some(d) => Ok(d),
        None => Err(BokError::NoUsableValue),
    }
}

} // verus!

//! Runtime configuration, computed from the raw values of the environment
//! variables that configure the engine.

use vstd::prelude::*;

use crate::text::{
    ascii_upper, lowercase_of, parse_i64, parse_u64, parsed_i64, parsed_u64, str_eq, to_lowercase, to_uppercase, trim,
    trim_end_of, trim_start_of, trimmed_of, uppercase_of,
};

verus! {

/// Where KRW per USD comes from.
#[derive(Clone, Copy, Debug, PartialEq, Eq, Structural)]
pub enum KrwUsdSource {
    Yahoo,
    Bok,
}

/// Which venue's book ticker supplies USD per USDT.
#[derive(Clone, Copy, Debug, PartialEq, Eq, Structural)]
pub enum UsdtUsdExchange {
    Binance,
    Bybit,
}

/// Engine settings.
#[derive(Clone, Debug)]
pub struct EngineConfig {
    /// Yahoo Finance real-time KRW per 1 USD or BOK ECOS daily series.
    pub krw_usd_source: KrwUsdSource,
    /// How often to refresh KRW/USD from REST (default 60 s).
    pub krw_usd_refresh_secs: u64,
    /// REST data older than this many seconds counts as missing.
    pub krw_usd_stale_secs: i64,
    /// Which venue supplies the stablecoin pair's book ticker for USDT to USD.
    pub usdt_usd_exchange: UsdtUsdExchange,
    /// The stablecoin pair (e.g. USDCUSDT) whose mid price gives USD per USDT as 1/mid.
    pub usdt_usd_pair: String,
    /// Max age of the stream-derived USD per USDT before falling back to 1 (default 30 s).
    pub usdt_usd_stale_secs: i64,
    /// BOK ECOS API key, used when the source is BOK.
    pub bok_api_key: Option<String>,
}

/// The raw values of the configuring environment variables (`None` where a
/// variable is unset or not Unicode): `ARBC_KRW_USD_SOURCE`,
/// `ARBC_KRW_USD_REFRESH_SECS`, `ARBC_KRW_USD_STALE_SECS`,
/// `ARBC_USDT_USD_EXCHANGE`, `ARBC_USDT_USD_PAIR`, `ARBC_USDT_USD_STALE_SECS`,
/// `BOK_ECOS_API_KEY`.
#[derive(Clone, Debug)]
pub struct ConfigInputs {
    pub krw_usd_source: Option<String>,
    pub krw_usd_refresh_secs: Option<String>,
    pub krw_usd_stale_secs: Option<String>,
    pub usdt_usd_exchange: Option<String>,
    pub usdt_usd_pair: Option<String>,
    pub usdt_usd_stale_secs: Option<String>,
    pub bok_api_key: Option<String>,
}

/// The text of an optional value, empty where unset.
pub open spec fn text_or_empty(o: Option<String>) -> Seq<char> {
    match o {
        Some(s) => s@,
        None => Seq::empty(),
    }
}

/// An unsigned setting: the parsed value, or `default` where unset or unparsable.
pub open spec fn u64_setting(o: Option<String>, default: u64) -> u64 {
    match o {
        Some(s) => match parsed_u64(s@) {
            Some(v) => v,
            None => default,
        },
        None => default,
    }
}

/// A signed setting: the parsed value, or `default` where unset or unparsable.
pub open spec fn i64_setting(o: Option<String>, default: i64) -> i64 {
    match o {
        Some(s) => match parsed_i64(s@) {
            Some(v) => v,
            None => default,
        },
        None => default,
    }
}

/// The configured stablecoin pair: the value (default `USDCUSDT`), trimmed
/// and upper-cased.
pub open spec fn pair_setting(o: Option<String>) -> Seq<char> {
    let raw = match o {
        Some(s) => s@,
        None => seq!['U', 'S', 'D', 'C', 'U', 'S', 'D', 'T'],
    };
    uppercase_of(trimmed_of(raw))
}

fn u64_or(o: &Option<String>, default: u64) -> (r: u64)
    ensures
        r == u64_setting(*o, default),
{
    match o {
        Some(s) => match parse_u64(s.as_str()) {
            Some(v) => v,
            None => default,
        },
        None => default,
    }
}

fn i64_or(o: &Option<String>, default: i64) -> (r: i64)
    ensures
        r == i64_setting(*o, default),
{
    match o {
        Some(s) => match parse_i64(s.as_str()) {
            Some(v) => v,
            None => default,
        },
        None => default,
    }
}

impl EngineConfig {
    /// The configuration the environment values give: the KRW/USD source is
    /// BOK where `ARBC_KRW_USD_SOURCE` lower-cases to `bok` (else Yahoo);
    /// numbers default to 60, 7200 and 30 where unset or unparsable; the USDT
    /// venue is Bybit where `ARBC_USDT_USD_EXCHANGE` lower-cases to `bybit`
    /// (else Binance); the pair is trimmed and upper-cased; an empty BOK key
    /// counts as unset. `None` exactly where the pair comes out empty.
    pub fn from_inputs(v: ConfigInputs) -> (r: Option<EngineConfig>)
        ensures
            r is Some <==> pair_setting(v.usdt_usd_pair).len() > 0,
            v.usdt_usd_pair is None ==> (r matches Some(c) && c.usdt_usd_pair@ == seq![
                'U',
                'S',
                'D',
                'C',
                'U',
                'S',
                'D',
                'T',
            ]),
            r matches Some(c) ==> {
                &&& c.krw_usd_source == (if lowercase_of(text_or_empty(v.krw_usd_source)) == seq!['b', 'o', 'k'] {
                    KrwUsdSource::Bok
                } else {
                    KrwUsdSource::Yahoo
                })
                &&& c.krw_usd_refresh_secs == u64_setting(v.krw_usd_refresh_secs, 60)
                &&& c.krw_usd_stale_secs == i64_setting(v.krw_usd_stale_secs, 7200)
                &&& c.usdt_usd_exchange == (if lowercase_of(text_or_empty(v.usdt_usd_exchange)) == seq![
                    'b',
                    'y',
                    'b',
                    'i',
                    't',
                ] {
                    UsdtUsdExchange::Bybit
                } else {
                    UsdtUsdExchange::Binance
                })
                &&& c.usdt_usd_pair@ == pair_setting(v.usdt_usd_pair)
                &&& c.usdt_usd_stale_secs == i64_setting(v.usdt_usd_stale_secs, 30)
                &&& match v.bok_api_key {
                    Some(k) => if k@.len() > 0 {
                        c.bok_api_key matches Some(ck) && ck@ == k@
                    } else {
                        c.bok_api_key is None
                    },
                    None => c.bok_api_key is None,
                }
            },
    {
        proof {
            reveal_strlit("bok");
            reveal_strlit("bybit");
            reveal_strlit("USDCUSDT");
            reveal_strlit("");
            assert("bok"@ =~= seq!['b', 'o', 'k']);
            assert("bybit"@ =~= seq!['b', 'y', 'b', 'i', 't']);
            assert("USDCUSDT"@ =~= seq!['U', 'S', 'D', 'C', 'U', 'S', 'D', 'T']);
            assert(""@ =~= Seq::<char>::empty());
        }
        let source_text = match &v.krw_usd_source {
            Some(s) => to_lowercase(s.as_str()),
            None => to_lowercase(""),
        };
        let krw_usd_source = if str_eq(source_text.as_str(), "bok") {
            KrwUsdSource::Bok
        } else {
            KrwUsdSource::Yahoo
        };
        let krw_usd_refresh_secs = u64_or(&v.krw_usd_refresh_secs, 60);
        let krw_usd_stale_secs = i64_or(&v.krw_usd_stale_secs, 7200);
        let exchange_text = match &v.usdt_usd_exchange {
            Some(s) => to_lowercase(s.as_str()),
            None => to_lowercase(""),
        };
        let usdt_usd_exchange = if str_eq(exchange_text.as_str(), "bybit") {
            UsdtUsdExchange::Bybit
        } else {
            UsdtUsdExchange::Binance
        };
        let pair = match &v.usdt_usd_pair {
            Some(s) => to_uppercase(trim(s.as_str())),
            None => {
                let d = "USDCUSDT";
                proof {
                    let w = seq!['U', 'S', 'D', 'C', 'U', 'S', 'D', 'T'];
                    assert(trim_start_of(w) == w);
                    assert(trim_end_of(w) == w);
                    assert(w.map_values(|c: char| ascii_upper(c)) =~= w);
                }
                to_uppercase(trim(d))
            },
        };
        if pair.as_str().is_empty() {
            return None;
        }
        let usdt_usd_stale_secs = i64_or(&v.usdt_usd_stale_secs, 30);
        let bok_api_key = match v.bok_api_key {
            Some(k) => if k.as_str().is_empty() {
                None
            } else {
                Some(k)
            },
            None => None,
        };
        Some(EngineConfig {
            krw_usd_source,
            krw_usd_refresh_secs,
            krw_usd_stale_secs,
            usdt_usd_exchange,
            usdt_usd_pair: pair,
            usdt_usd_stale_secs,
            bok_api_key,
        })
    }

    /// The stablecoin pair in lower case (as stream names spell it).
    pub fn usdt_pair_lower(&self) -> (r: String)
        ensures
            r@ == lowercase_of(self.usdt_usd_pair@),
    {
        to_lowercase(self.usdt_usd_pair.as_str())
    }
}

} // verus!

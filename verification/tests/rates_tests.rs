use engine::config::{ConfigInputs, EngineConfig, KrwUsdSource};
use engine::decimal::Dec;
use engine::models::{Exchange, QuoteCurrency, RateSource, Symbol, Ticker};
use engine::normalizer::Normalizer;
use engine::rates::{bok_rate_from_body, bok_rate_from_values, poll_plan, rate_source_for, BokError, PollPlan, RateManager};
use std::sync::Arc;

const T0: i128 = 1_700_000_000_000_000_000;
const SEC: i128 = 1_000_000_000;

fn d(s: &str) -> Dec {
    Dec::parse(s).unwrap()
}

fn default_config() -> EngineConfig {
    EngineConfig::from_inputs(ConfigInputs {
        krw_usd_source: None,
        krw_usd_refresh_secs: None,
        krw_usd_stale_secs: None,
        usdt_usd_exchange: None,
        usdt_usd_pair: None,
        usdt_usd_stale_secs: None,
        bok_api_key: None,
    })
    .unwrap()
}

fn ticker(ex: Exchange, q: QuoteCurrency, bid: &str, ask: &str) -> Ticker {
    Ticker {
        exchange: ex,
        symbol: Symbol::ETH,
        best_bid: d(bid),
        best_bid_qty: d("1"),
        best_ask: d(ask),
        best_ask_qty: d("2"),
        quote_currency: q,
        timestamp: T0,
        local_timestamp: T0,
    }
}

#[test]
fn usd_per_usdt_defaults_to_one() {
    let rm = RateManager::new(&default_config());
    assert!(rm.usd_per_usdt_at(T0).eq_value(&d("1")));
    assert!(rm.usd_per_usdt_live().eq_value(&d("1")));
    assert!(rm.krw_per_usd_at(T0).is_none());
    assert!(rm.krw_per_usd_live().is_none());
    assert!(rm.get_rate_at(T0).unwrap().is_none());
    assert!(rm.get_rate().unwrap().is_none());
}

#[test]
fn usdt_rate_is_inverse_mid_until_stale() {
    let mut rm = RateManager::new(&default_config());
    rm.update_usdt_usd_from_pair_mid_at(d("0.5"), T0);
    assert!(rm.usd_per_usdt_at(T0 + 30 * SEC).eq_value(&d("2")));
    assert!(rm.usd_per_usdt_at(T0 + 31 * SEC).eq_value(&d("1")));
    // a zero mid is ignored
    rm.update_usdt_usd_from_pair_mid_at(Dec::zero(), T0 + SEC);
    assert!(rm.usd_per_usdt_at(T0 + 30 * SEC).eq_value(&d("2")));
    rm.update_usdt_usd_from_pair_mid(d("0.25"));
    assert!(rm.usd_per_usdt_live().eq_value(&d("4")));
    // one over the smallest decimal still fits
    rm.update_usdt_usd_from_pair_mid_at(d("-0.0000000000000000000000000001"), T0);
    assert!(rm.usd_per_usdt_at(T0).eq_value(&d("-10000000000000000000000000000")));
}

#[test]
fn krw_rate_expires_after_stale_window() {
    let mut rm = RateManager::new(&default_config());
    rm.store_krw_per_usd_at(d("1350"), RateSource::Yahoo, T0);
    assert!(rm.krw_per_usd_at(T0 + 7200 * SEC).unwrap().eq_value(&d("1350")));
    assert!(rm.krw_per_usd_at(T0 + 7201 * SEC).is_none());
    rm.store_krw_per_usd(d("1400"), RateSource::Bok);
    assert!(rm.krw_per_usd_live().unwrap().eq_value(&d("1400")));
}

#[test]
fn rate_combines_krw_and_usdt() {
    let mut rm = RateManager::new(&default_config());
    rm.store_krw_per_usd_at(d("1350"), RateSource::Bok, T0);
    rm.update_usdt_usd_from_pair_mid_at(d("0.5"), T0);
    let r = rm.get_rate_at(T0 + SEC).unwrap().unwrap();
    assert!(r.krw_per_usdt.eq_value(&d("2700")));
    assert!(r.usdt_per_usd.eq_value(&d("2")));
    assert!(r.krw_per_usd.eq_value(&d("1350")));
    assert_eq!(r.source, RateSource::Bok);
    assert_eq!(r.timestamp, T0 + SEC);
}

#[test]
fn normalizes_usdt_and_krw_quotes() {
    let mut rm = RateManager::new(&default_config());
    rm.update_usdt_usd_from_pair_mid_at(d("0.5"), T0);
    rm.store_krw_per_usd_at(d("1350"), RateSource::Yahoo, T0);
    let n = Normalizer::new(Arc::new(rm));
    let u = n.process_at(&ticker(Exchange::Bybit, QuoteCurrency::USDT, "100", "101"), T0).unwrap().unwrap();
    assert!(u.best_bid_usd.eq_value(&d("200")));
    assert!(u.best_ask_usd.eq_value(&d("202")));
    assert!(u.raw_bid.eq_value(&d("100")));
    assert!(u.exchange_rate.is_none());
    assert_eq!(u.exchange, Exchange::Bybit);
    let k = n.process_at(&ticker(Exchange::Upbit, QuoteCurrency::KRW, "135000", "270000"), T0).unwrap().unwrap();
    assert!(k.best_bid_usd.eq_value(&d("100")));
    assert!(k.best_ask_usd.eq_value(&d("200")));
    assert!(k.exchange_rate.unwrap().eq_value(&d("1350")));
    assert!(k.best_ask_qty.eq_value(&d("2")));
}

#[test]
fn krw_quote_without_rate_is_dropped() {
    let rm = RateManager::new(&default_config());
    let n = Normalizer::new(Arc::new(rm));
    assert!(n.process_at(&ticker(Exchange::Upbit, QuoteCurrency::KRW, "1", "2"), T0).unwrap().is_none());
    let mut rm = RateManager::new(&default_config());
    rm.store_krw_per_usd_at(Dec::zero(), RateSource::Yahoo, T0);
    let n = Normalizer::new(Arc::new(rm));
    assert!(n.process_at(&ticker(Exchange::Bithumb, QuoteCurrency::KRW, "1", "2"), T0).unwrap().is_none());
    // USDT quotes need no KRW rate
    assert!(n.process(&ticker(Exchange::Binance, QuoteCurrency::USDT, "1", "2")).unwrap().is_some());
}

#[test]
fn bok_picks_last_plausible_value() {
    let values = vec![
        Some("1350.5".to_string()),
        Some(" 1360.25 ".to_string()),
        Some("12".to_string()),
        None,
        Some("n/a".to_string()),
    ];
    assert!(bok_rate_from_values(&values).unwrap().eq_value(&d("1360.25")));
    assert!(bok_rate_from_values(&vec![Some("499.99".to_string()), Some("5000.01".to_string())]).is_none());
    assert!(bok_rate_from_values(&vec![Some("500".to_string()), Some("5000".to_string())]).unwrap().eq_value(&d("5000")));
    assert!(bok_rate_from_values(&vec![]).is_none());
}

#[test]
fn poll_plan_follows_source() {
    let cfg = default_config();
    assert!(matches!(poll_plan(&cfg), PollPlan::Yahoo));
    let mut bok = cfg.clone();
    bok.krw_usd_source = KrwUsdSource::Bok;
    assert!(matches!(poll_plan(&bok), PollPlan::MissingBokKey));
    bok.bok_api_key = Some("KEY".to_string());
    match poll_plan(&bok) {
        PollPlan::Bok(k) => assert_eq!(k, "KEY"),
        _ => panic!("expected the BOK fetch"),
    }
    assert_eq!(rate_source_for(KrwUsdSource::Yahoo), RateSource::Yahoo);
    assert_eq!(rate_source_for(KrwUsdSource::Bok), RateSource::Bok);
}

#[test]
fn bok_body_row_array() {
    let body = r#"{"StatisticSearch":{"list_total_count":2,"row":[{"DATA_VALUE":"1350.5"},{"DATA_VALUE":"99"}]}}"#;
    assert!(bok_rate_from_body(body).unwrap().eq_value(&d("1350.5")));
}

#[test]
fn bok_body_list_and_single_row() {
    let body = r#"{"StatisticSearch":{"list":[{"DATA_VALUE":" 1400.25 "},{"DATA_VALUE":null}]}}"#;
    assert!(bok_rate_from_body(body).unwrap().eq_value(&d("1400.25")));
    let body = r#"{"StatisticSearch":{"row":{"DATA_VALUE":1380}}}"#;
    assert!(bok_rate_from_body(body).unwrap().eq_value(&d("1380")));
}

#[test]
fn bok_body_errors() {
    assert_eq!(bok_rate_from_body("not json").unwrap_err(), BokError::BadJson);
    assert_eq!(bok_rate_from_body(r#"{"RESULT":{"CODE":"INFO-200"}}"#).unwrap_err(), BokError::MissingRows);
    assert_eq!(bok_rate_from_body(r#"{"StatisticSearch":{"row":"x"}}"#).unwrap_err(), BokError::MissingRows);
    assert_eq!(
        bok_rate_from_body(r#"{"StatisticSearch":{"row":[{"DATA_VALUE":"12"},{"OTHER":"1300"}]}}"#).unwrap_err(),
        BokError::NoUsableValue
    );
}

#[test]
fn bok_numbers_read_as_floats() {
    let r = bok_rate_from_body(r#"{"StatisticSearch":{"row":[{"DATA_VALUE":1380.0}]}}"#).unwrap();
    assert_eq!((r.mantissa(), r.scale()), (1380, 0));
    let r = bok_rate_from_body(r#"{"StatisticSearch":{"row":[{"DATA_VALUE":1380.50}]}}"#).unwrap();
    assert_eq!((r.mantissa(), r.scale()), (13805, 1));
    let r = bok_rate_from_body(r#"{"StatisticSearch":{"row":[{"DATA_VALUE":1.38e3}]}}"#).unwrap();
    assert_eq!((r.mantissa(), r.scale()), (1380, 0));
}

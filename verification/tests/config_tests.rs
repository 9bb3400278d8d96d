use engine::config::{ConfigInputs, EngineConfig, KrwUsdSource, UsdtUsdExchange};

fn none() -> ConfigInputs {
    ConfigInputs {
        krw_usd_source: None,
        krw_usd_refresh_secs: None,
        krw_usd_stale_secs: None,
        usdt_usd_exchange: None,
        usdt_usd_pair: None,
        usdt_usd_stale_secs: None,
        bok_api_key: None,
    }
}

#[test]
fn defaults() {
    let c = EngineConfig::from_inputs(none()).unwrap();
    assert_eq!(c.krw_usd_source, KrwUsdSource::Yahoo);
    assert_eq!(c.krw_usd_refresh_secs, 60);
    assert_eq!(c.krw_usd_stale_secs, 7200);
    assert_eq!(c.usdt_usd_exchange, UsdtUsdExchange::Binance);
    assert_eq!(c.usdt_usd_pair, "USDCUSDT");
    assert_eq!(c.usdt_usd_stale_secs, 30);
    assert!(c.bok_api_key.is_none());
    assert_eq!(c.usdt_pair_lower(), "usdcusdt");
}

#[test]
fn values_are_parsed_and_normalized() {
    let mut v = none();
    v.krw_usd_source = Some("BoK".to_string());
    v.krw_usd_refresh_secs = Some("+15".to_string());
    v.krw_usd_stale_secs = Some("-5".to_string());
    v.usdt_usd_exchange = Some("BYBIT".to_string());
    v.usdt_usd_pair = Some("  fdusdusdt \n".to_string());
    v.usdt_usd_stale_secs = Some("9".to_string());
    v.bok_api_key = Some("test-key".to_string());
    let c = EngineConfig::from_inputs(v).unwrap();
    assert_eq!(c.krw_usd_source, KrwUsdSource::Bok);
    assert_eq!(c.krw_usd_refresh_secs, 15);
    assert_eq!(c.krw_usd_stale_secs, -5);
    assert_eq!(c.usdt_usd_exchange, UsdtUsdExchange::Bybit);
    assert_eq!(c.usdt_usd_pair, "FDUSDUSDT");
    assert_eq!(c.usdt_usd_stale_secs, 9);
    assert_eq!(c.bok_api_key.as_deref(), Some("test-key"));
    assert_eq!(c.usdt_pair_lower(), "fdusdusdt");
}

#[test]
fn unparsable_numbers_fall_back() {
    let mut v = none();
    v.krw_usd_refresh_secs = Some("-1".to_string());
    v.krw_usd_stale_secs = Some("1e3".to_string());
    v.usdt_usd_stale_secs = Some(" 7".to_string());
    v.krw_usd_source = Some("yahoo!".to_string());
    v.bok_api_key = Some(String::new());
    let c = EngineConfig::from_inputs(v).unwrap();
    assert_eq!(c.krw_usd_refresh_secs, 60);
    assert_eq!(c.krw_usd_stale_secs, 7200);
    assert_eq!(c.usdt_usd_stale_secs, 30);
    assert_eq!(c.krw_usd_source, KrwUsdSource::Yahoo);
    assert!(c.bok_api_key.is_none());
}

#[test]
fn blank_pair_is_rejected() {
    let mut v = none();
    v.usdt_usd_pair = Some("   ".to_string());
    assert!(EngineConfig::from_inputs(v).is_none());
}

#[test]
fn pair_is_trimmed_of_unicode_white_space() {
    let mut v = none();
    v.usdt_usd_pair = Some("\u{3000}\t fdusdusdt\u{a0}\u{2028}".to_string());
    let c = EngineConfig::from_inputs(v).unwrap();
    assert_eq!(c.usdt_usd_pair, "FDUSDUSDT");
}

#[test]
fn number_settings_at_their_limits() {
    let mut v = none();
    v.krw_usd_refresh_secs = Some("18446744073709551615".to_string());
    v.krw_usd_stale_secs = Some("-9223372036854775808".to_string());
    v.usdt_usd_stale_secs = Some("9223372036854775807".to_string());
    let c = EngineConfig::from_inputs(v).unwrap();
    assert_eq!(c.krw_usd_refresh_secs, u64::MAX);
    assert_eq!(c.krw_usd_stale_secs, i64::MIN);
    assert_eq!(c.usdt_usd_stale_secs, i64::MAX);
    let mut v = none();
    v.krw_usd_refresh_secs = Some("18446744073709551616".to_string());
    v.krw_usd_stale_secs = Some("-9223372036854775809".to_string());
    v.usdt_usd_stale_secs = Some("+-1".to_string());
    let c = EngineConfig::from_inputs(v).unwrap();
    assert_eq!(c.krw_usd_refresh_secs, 60);
    assert_eq!(c.krw_usd_stale_secs, 7200);
    assert_eq!(c.usdt_usd_stale_secs, 30);
}

use engine::config::{ConfigInputs, EngineConfig, UsdtUsdExchange};
use engine::decimal::Dec;
use engine::feeds::binance::{self, BookTicker, BookTickerAction, Route};
use engine::feeds::bithumb::{self, OrderbookMsg};
use engine::feeds::bybit::{self, BookData};
use engine::feeds::connection::{get_proxy, plan_connection, ConnectError, ConnectPlan};
use engine::feeds::session::{ping_interval_secs, Session, WsAction, WsEvent};
use engine::feeds::upbit::{self, OrderbookUnit};
use engine::feeds::FeedError;
use engine::models::{all_symbols, exchange_at_index, slot_of, Exchange, QuoteCurrency, Symbol};

const NOW: i128 = 1_700_000_000_000_000_000;

fn d(s: &str) -> Dec {
    Dec::parse(s).unwrap()
}

fn same(a: Dec, b: &str) -> bool {
    a.eq_value(&d(b))
}

fn repr(x: Dec) -> (i128, u32) {
    (x.mantissa(), x.scale())
}

fn pair(p: &str, q: &str) -> (String, String) {
    (p.to_string(), q.to_string())
}

fn default_config() -> EngineConfig {
    EngineConfig::from_inputs(ConfigInputs {
        krw_usd_source: None,
        krw_usd_refresh_secs: None,
        krw_usd_stale_secs: None,
        usdt_usd_exchange: None,
        usdt_usd_pair: None,
        usdt_usd_stale_secs: None,
        bok_api_key: None,
    })
    .unwrap()
}

fn bt(s: &str, b: &str, bq: &str, a: &str, aq: &str) -> BookTicker {
    BookTicker { s: s.to_string(), b: b.to_string(), bq: bq.to_string(), a: a.to_string(), aq: aq.to_string() }
}

#[test]
fn venue_names_fees_and_currencies() {
    assert_eq!(Exchange::Binance.name(), "Binance");
    assert_eq!(Exchange::Bithumb.name(), "Bithumb");
    assert_eq!(Symbol::XRP.name(), "XRP");
    assert!(same(Exchange::Bybit.taker_fee(), "0.001"));
    assert!(same(Exchange::Upbit.taker_fee(), "0.0025"));
    assert_eq!(Exchange::Upbit.quote_currency(), QuoteCurrency::KRW);
    assert_eq!(Exchange::Binance.quote_currency(), QuoteCurrency::USDT);
    assert_eq!(all_symbols(), [Symbol::BTC, Symbol::ETH, Symbol::SOL, Symbol::XRP]);
    assert_eq!(exchange_at_index(2), Exchange::Upbit);
    assert_eq!(slot_of(Exchange::Bithumb, Symbol::XRP), 15);
    assert_eq!(slot_of(Exchange::Bybit, Symbol::ETH), 5);
}

#[test]
fn binance_pair_names_roundtrip() {
    for s in all_symbols() {
        assert_eq!(binance::pair_to_symbol(binance::symbol_to_pair(&s)), Some(s));
    }
    assert_eq!(binance::pair_to_symbol("BtcUsdt"), Some(Symbol::BTC));
    assert_eq!(binance::pair_to_symbol("DOGEUSDT"), None);
    assert_eq!(binance::stream_to_symbol("ethusdt@depth5@100ms"), Some(Symbol::ETH));
    assert_eq!(binance::stream_to_symbol("solusdt"), Some(Symbol::SOL));
    assert_eq!(binance::stream_to_symbol("usdcusdt@bookTicker"), None);
}

#[test]
fn binance_stream_url_lists_all_streams() {
    let mut cfg = default_config();
    assert_eq!(
        binance::stream_url(&cfg),
        "wss://stream.binance.com:9443/stream?streams=btcusdt@bookTicker/btcusdt@depth5@100ms/\
         ethusdt@bookTicker/ethusdt@depth5@100ms/solusdt@bookTicker/solusdt@depth5@100ms/\
         xrpusdt@bookTicker/xrpusdt@depth5@100ms/usdcusdt@bookTicker"
    );
    cfg.usdt_usd_exchange = UsdtUsdExchange::Bybit;
    assert!(!binance::stream_url(&cfg).contains("usdcusdt"));
}

#[test]
fn binance_routes() {
    assert_eq!(binance::route(Some("btcusdt@depth5@100ms")), Route::Depth);
    assert_eq!(binance::route(Some("btcusdt@bookTicker")), Route::BookTicker);
    assert_eq!(binance::route(Some("btcusdt@trade")), Route::Other);
    assert_eq!(binance::route(None), Route::Direct);
}

#[test]
fn binance_depth_takes_first_five_parsed_levels() {
    let bids = vec![
        pair("100", "1"),
        pair("99", "2"),
        pair("bad", "3"),
        pair("97", "4"),
        pair("96", "5"),
        pair("95", "6"),
    ];
    let asks = vec![pair("101", "1")];
    let ob = binance::depth_update("btcusdt@depth5@100ms", &bids, &asks, NOW).unwrap();
    assert_eq!(ob.exchange, Exchange::Binance);
    assert_eq!(ob.symbol, Symbol::BTC);
    assert_eq!(ob.quote_currency, QuoteCurrency::USDT);
    assert_eq!(ob.timestamp, NOW);
    assert_eq!(ob.bids.len(), 4);
    assert!(same(ob.bids[2].price, "97"));
    assert!(same(ob.bids[3].qty, "5"));
    assert_eq!(ob.asks.len(), 1);
    assert!(binance::depth_update("dogeusdt@depth5", &bids, &asks, NOW).is_none());
}

#[test]
fn binance_book_ticker_actions() {
    let cfg = default_config();
    match binance::handle_book_ticker(&bt("usdcusdt", "0.9998", "1", "1.0000", "1"), &cfg, NOW).unwrap() {
        BookTickerAction::UsdtMid(m) => assert!(same(m, "0.9999")),
        other => panic!("unexpected {:?}", other),
    }
    assert!(matches!(
        binance::handle_book_ticker(&bt("USDCUSDT", "0", "1", "0", "1"), &cfg, NOW),
        Ok(BookTickerAction::Nothing)
    ));
    match binance::handle_book_ticker(&bt("BTCUSDT", "100.5", "2", "101", "3"), &cfg, NOW).unwrap() {
        BookTickerAction::Quote(t) => {
            assert_eq!(t.exchange, Exchange::Binance);
            assert_eq!(t.symbol, Symbol::BTC);
            assert!(same(t.best_bid, "100.5"));
            assert!(same(t.best_bid_qty, "2"));
            assert!(same(t.best_ask, "101"));
            assert!(same(t.best_ask_qty, "3"));
            assert_eq!(t.timestamp, NOW);
            assert_eq!(t.local_timestamp, NOW);
        }
        other => panic!("unexpected {:?}", other),
    }
    assert!(matches!(
        binance::handle_book_ticker(&bt("DOGEUSDT", "1", "1", "1", "1"), &cfg, NOW),
        Err(FeedError::UnknownSymbol)
    ));
    assert!(matches!(
        binance::handle_book_ticker(&bt("BTCUSDT", "1", "x", "1", "1"), &cfg, NOW),
        Err(FeedError::BadNumber)
    ));
    assert!(matches!(
        binance::handle_book_ticker(&bt("USDCUSDT", "x", "1", "1", "1"), &cfg, NOW),
        Err(FeedError::BadNumber)
    ));
}

#[test]
fn bybit_pairs_and_topics() {
    for s in all_symbols() {
        assert_eq!(bybit::pair_to_symbol(bybit::symbol_to_pair(&s)), Some(s));
    }
    assert_eq!(bybit::pair_to_symbol("btcusdt"), None);
    assert_eq!(
        bybit::subscription_topics(),
        vec!["orderbook.5.BTCUSDT", "orderbook.5.ETHUSDT", "orderbook.5.SOLUSDT", "orderbook.5.XRPUSDT"]
    );
    let raw = vec![pair("1", "1"), pair("x", "1"), pair("3", "3")];
    let levels = bybit::parse_levels(&raw, 2);
    assert_eq!(levels.len(), 1);
    assert!(same(levels[0].price, "1"));
    assert_eq!(bybit::parse_levels(&raw, 10).len(), 2);
}

fn book_data(s: &str, b: Vec<(String, String)>, a: Vec<(String, String)>) -> Option<BookData> {
    Some(BookData { s: s.to_string(), b, a })
}

#[test]
fn bybit_messages() {
    let topic = Some("orderbook.5.BTCUSDT".to_string());
    assert!(matches!(bybit::handle_message(None, None, NOW), Ok(None)));
    assert!(matches!(bybit::handle_message(Some("tickers.BTCUSDT".to_string()), None, NOW), Ok(None)));
    assert!(matches!(bybit::handle_message(topic.clone(), None, NOW), Err(FeedError::MissingField)));
    assert!(matches!(
        bybit::handle_message(topic.clone(), book_data("DOGEUSDT", vec![], vec![]), NOW),
        Err(FeedError::UnknownSymbol)
    ));
    assert!(matches!(
        bybit::handle_message(topic.clone(), book_data("BTCUSDT", vec![pair("1", "1")], vec![]), NOW),
        Ok(None)
    ));
    assert!(matches!(
        bybit::handle_message(topic.clone(), book_data("BTCUSDT", vec![pair("1", "?")], vec![pair("2", "1")]), NOW),
        Err(FeedError::BadNumber)
    ));
    let bids = vec![pair("100", "1"), pair("99", "2")];
    let asks = vec![pair("101", "3"), pair("102", "4"), pair("103", "5")];
    let (t, ob) = bybit::handle_message(topic, book_data("ETHUSDT", bids, asks), NOW).unwrap().unwrap();
    assert_eq!(t.exchange, Exchange::Bybit);
    assert_eq!(t.symbol, Symbol::ETH);
    assert!(same(t.best_bid, "100"));
    assert!(same(t.best_ask_qty, "3"));
    assert_eq!(ob.bids.len(), 2);
    assert_eq!(ob.asks.len(), 3);
    assert!(ob.bids[0].price.eq_value(&t.best_bid) && ob.bids[0].qty.eq_value(&t.best_bid_qty));
    assert!(ob.asks[0].price.eq_value(&t.best_ask) && ob.asks[0].qty.eq_value(&t.best_ask_qty));
    assert!(same(ob.asks[2].price, "103"));
    assert_eq!(ob.timestamp, NOW);
}

fn unit(ap: &str, asz: &str, bp: &str, bsz: &str) -> OrderbookUnit {
    OrderbookUnit { ask_price: d(ap), ask_size: d(asz), bid_price: d(bp), bid_size: d(bsz) }
}

#[test]
fn upbit_codes_and_messages() {
    for s in all_symbols() {
        assert_eq!(upbit::code_to_symbol(upbit::symbol_to_code(&s)), Some(s));
    }
    assert_eq!(upbit::subscription_codes(), vec!["KRW-BTC", "KRW-ETH", "KRW-SOL", "KRW-XRP"]);
    assert!(matches!(upbit::handle_message(None, None, None, None, NOW), Err(FeedError::MissingField)));
    assert!(matches!(
        upbit::handle_message(Some("KRW-DOGE".to_string()), None, None, None, NOW),
        Err(FeedError::UnknownSymbol)
    ));
    assert!(matches!(
        upbit::handle_message(Some("KRW-BTC".to_string()), None, None, None, NOW),
        Err(FeedError::MissingField)
    ));
    assert!(matches!(
        upbit::handle_message(None, Some("KRW-BTC".to_string()), Some(vec![]), None, NOW),
        Ok(None)
    ));
    // The short fields take precedence over the long ones.
    let t = upbit::handle_message(
        Some("KRW-SOL".to_string()),
        Some("KRW-BTC".to_string()),
        Some(vec![unit("201000", "1.5", "200000", "2.5")]),
        Some(vec![unit("1", "1", "1", "1")]),
        NOW,
    )
    .unwrap()
    .unwrap();
    assert_eq!(t.exchange, Exchange::Upbit);
    assert_eq!(t.symbol, Symbol::SOL);
    assert_eq!(t.quote_currency, QuoteCurrency::KRW);
    assert!(same(t.best_ask, "201000"));
    assert!(same(t.best_ask_qty, "1.5"));
    assert!(same(t.best_bid, "200000"));
    assert!(same(t.best_bid_qty, "2.5"));
}

fn msg(t: Option<&str>, code: Option<&str>, units: Option<Vec<bithumb::OrderbookUnit>>, status: Option<&str>) -> OrderbookMsg {
    OrderbookMsg {
        msg_type: t.map(|x| x.to_string()),
        code: code.map(|x| x.to_string()),
        orderbook_units: units,
        status: status.map(|x| x.to_string()),
    }
}

fn bu(ask: Option<(&str, &str)>, bid: Option<(&str, &str)>) -> bithumb::OrderbookUnit {
    bithumb::OrderbookUnit { ask: ask.map(|(p, q)| pair(p, q)), bid: bid.map(|(p, q)| pair(p, q)) }
}

#[test]
fn bithumb_messages() {
    assert_eq!(bithumb::subscription_codes(), vec!["KRW-BTC", "KRW-ETH", "KRW-SOL", "KRW-XRP"]);
    assert_eq!(bithumb::code_to_symbol("KRW-ETH"), Some(Symbol::ETH));
    assert!(matches!(bithumb::handle_message(msg(None, None, None, Some("0000")), NOW), Ok(None)));
    assert!(matches!(bithumb::handle_message(msg(Some("ticker"), Some("KRW-BTC"), None, None), NOW), Ok(None)));
    assert!(matches!(
        bithumb::handle_message(msg(Some("orderbook"), None, None, None), NOW),
        Err(FeedError::MissingField)
    ));
    assert!(matches!(
        bithumb::handle_message(msg(Some("orderbook"), Some("KRW-DOGE"), None, None), NOW),
        Err(FeedError::UnknownSymbol)
    ));
    assert!(matches!(
        bithumb::handle_message(msg(Some("orderbook"), Some("KRW-BTC"), None, None), NOW),
        Err(FeedError::MissingField)
    ));
    assert!(matches!(
        bithumb::handle_message(msg(Some("orderbook"), Some("KRW-BTC"), Some(vec![]), None), NOW),
        Ok(None)
    ));
    // Only asks: no quote.
    assert!(matches!(
        bithumb::handle_message(
            msg(Some("orderbook"), Some("KRW-BTC"), Some(vec![bu(Some(("101", "1")), None)]), None),
            NOW
        ),
        Ok(None)
    ));
    assert!(matches!(
        bithumb::handle_message(
            msg(Some("orderbook"), Some("KRW-BTC"), Some(vec![bu(Some(("x", "1")), Some(("100", "1")))]), None),
            NOW
        ),
        Err(FeedError::BadNumber)
    ));
    let units = vec![
        bu(None, Some(("100", "1.00000000"))),
        bu(Some(("102", "2.00000000")), Some(("99", "2.00000000"))),
        bu(Some(("103", "3")), Some(("98", "3"))),
        bu(Some(("104", "4")), Some(("97", "4"))),
        bu(Some(("105", "5")), Some(("96", "5"))),
        bu(Some(("106", "6")), Some(("95", "6"))),
    ];
    let (t, ob) =
        bithumb::handle_message(msg(Some("orderbook"), Some("KRW-XRP"), Some(units), None), NOW).unwrap().unwrap();
    assert_eq!(t.exchange, Exchange::Bithumb);
    assert_eq!(t.symbol, Symbol::XRP);
    assert_eq!(t.quote_currency, QuoteCurrency::KRW);
    assert!(same(t.best_bid, "100"));
    assert!(same(t.best_ask, "102"));
    assert!(same(t.best_ask_qty, "2"));
    assert_eq!(ob.bids.len(), 5);
    assert_eq!(ob.asks.len(), 4);
    assert_eq!(repr(ob.bids[0].price), repr(t.best_bid));
    assert_eq!(repr(ob.bids[0].qty), repr(t.best_bid_qty));
    assert_eq!(repr(ob.asks[0].price), repr(t.best_ask));
    assert_eq!(repr(ob.asks[0].qty), repr(t.best_ask_qty));
    assert!(same(ob.asks[3].price, "105"));
    assert!(same(ob.bids[4].price, "96"));
}

#[test]
fn ping_intervals() {
    assert_eq!(ping_interval_secs(Exchange::Binance), 15);
    assert_eq!(ping_interval_secs(Exchange::Bybit), 20);
    assert_eq!(ping_interval_secs(Exchange::Upbit), 30);
    assert_eq!(ping_interval_secs(Exchange::Bithumb), 30);
}

#[test]
fn rtt_recorded_once_per_ping() {
    let mut s = Session::new(Exchange::Binance);
    assert_eq!(s.on_event(&WsEvent::Pong), WsAction::Ignore);
    assert_eq!(s.on_event(&WsEvent::PingTick), WsAction::SendPing);
    assert!(s.ping_pending);
    assert_eq!(s.on_event(&WsEvent::Pong), WsAction::RecordRtt);
    assert!(!s.ping_pending);
    assert_eq!(s.on_event(&WsEvent::Pong), WsAction::Ignore);
    assert_eq!(s.on_event(&WsEvent::Ping), WsAction::SendPong);
    assert_eq!(s.on_event(&WsEvent::Text("{}".to_string())), WsAction::Handle);
    assert_eq!(s.on_event(&WsEvent::Binary(Some("{}".to_string()))), WsAction::Ignore);
    assert_eq!(s.on_event(&WsEvent::End), WsAction::Ignore);
    assert_eq!(s.on_event(&WsEvent::Close), WsAction::Stop);
}

#[test]
fn bybit_text_pong_and_binary_venues() {
    let mut s = Session::new(Exchange::Bybit);
    assert_eq!(s.on_event(&WsEvent::Text("{\"op\":\"pong\"}".to_string())), WsAction::Ignore);
    s.on_event(&WsEvent::PingTick);
    assert_eq!(s.on_event(&WsEvent::Text("{\"op\":\"pong\"}".to_string())), WsAction::RecordRtt);
    assert_eq!(s.on_event(&WsEvent::End), WsAction::Stop);
    let mut u = Session::new(Exchange::Upbit);
    assert_eq!(u.on_event(&WsEvent::Text("{\"op\":\"pong\"}".to_string())), WsAction::Handle);
    assert_eq!(u.on_event(&WsEvent::Binary(Some("{}".to_string()))), WsAction::Handle);
    assert_eq!(u.on_event(&WsEvent::Binary(None)), WsAction::SkipBinary);
    assert_eq!(u.on_event(&WsEvent::PingFailed), WsAction::Stop);
    assert_eq!(u.on_event(&WsEvent::Error), WsAction::Stop);
}

#[test]
fn proxy_settings() {
    assert_eq!(get_proxy(None), None);
    assert_eq!(get_proxy(Some("http://10.0.0.1:3128".to_string())), Some(("10.0.0.1".to_string(), 3128)));
    assert_eq!(get_proxy(Some("http://proxy.local".to_string())), Some(("proxy.local".to_string(), 7890)));
    assert_eq!(get_proxy(Some("not a url".to_string())), None);
}

#[test]
fn connection_plans() {
    assert!(matches!(plan_connection("wss://stream.binance.com:9443/stream", None), Ok(ConnectPlan::Direct)));
    match plan_connection("wss://stream.binance.com:9443/stream", Some("http://127.0.0.1:7897".to_string())) {
        Ok(ConnectPlan::ViaProxy { proxy_host, proxy_port, host, port }) => {
            assert_eq!(proxy_host, "127.0.0.1");
            assert_eq!(proxy_port, 7897);
            assert_eq!(host, "stream.binance.com");
            assert_eq!(port, 9443);
        }
        other => panic!("unexpected {:?}", other),
    }
    match plan_connection("wss://api.upbit.com/websocket/v1", Some("http://10.1.1.1:8080".to_string())) {
        Ok(ConnectPlan::ViaProxy { host, port, .. }) => {
            assert_eq!(host, "api.upbit.com");
            assert_eq!(port, 443);
        }
        other => panic!("unexpected {:?}", other),
    }
    assert!(matches!(plan_connection("not a url", None), Err(ConnectError::BadUrl)));
    assert!(matches!(plan_connection("data:text/plain,hello", None), Err(ConnectError::NoHost)));
}

use engine::models::Symbol;
use engine::pipeline::LoopCounters;

#[test]
fn periodic_work_follows_quote_count() {
    let mut c = LoopCounters::new();
    let first = c.on_tick(Symbol::ETH);
    assert!(first.warn_unconverted);
    assert!(!first.log_progress && !first.log_snapshot && !first.record_rate && !first.report_latency);
    for _ in 1..99 {
        c.on_tick(Symbol::BTC);
    }
    assert_eq!(c.ticks, 99);
    let p = c.on_tick(Symbol::BTC);
    assert!(p.record_rate);
    assert!(!p.warn_unconverted);
    for _ in 100..499 {
        c.on_tick(Symbol::ETH);
    }
    let p = c.on_tick(Symbol::ETH);
    assert_eq!(c.ticks, 500);
    assert!(p.report_latency);
    assert!(!p.record_rate);
    for _ in 500..2999 {
        c.on_tick(Symbol::SOL);
    }
    let p = c.on_tick(Symbol::SOL);
    assert!(p.log_snapshot && p.report_latency && !p.log_progress);
    for _ in 3000..4999 {
        c.on_tick(Symbol::XRP);
    }
    let p = c.on_tick(Symbol::XRP);
    assert!(p.log_progress && p.report_latency && !p.log_snapshot);
}

#[test]
fn first_and_every_500th_signal_is_logged() {
    let mut c = LoopCounters::new();
    assert!(c.on_signal());
    for _ in 1..500 {
        assert!(!c.on_signal());
    }
    assert!(c.on_signal());
    assert_eq!(c.signals, 501);
    assert_eq!(c.ticks, 0);
}

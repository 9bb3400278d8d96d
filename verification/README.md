# engine

A cross-exchange arbitrage engine for BTC, ETH, SOL and XRP on Binance,
Bybit (USDT quotes) and Upbit, Bithumb (KRW quotes). Quotes are converted to
USD, cross-venue spreads are scanned against order-book depth, and signals,
down-sampled quotes and exchange rates are kept in bounded memory and served
to a dashboard.

## Layout

- `src/` — the verified library (Verus):
  - `decimal` — fixed-point decimals; arithmetic is `rust_decimal`'s, named
    by uninterpreted functions; comparisons are exact.
  - `models` — venues, symbols, quotes, books, signals.
  - `config` — the configuration from raw setting values.
  - `json` — JSON documents as plain values (parsed by `serde_json`).
  - `rates` — cached KRW/USD and USDT/USD with staleness limits, and the
    KRW/USD value of a BOK ECOS response body.
  - `normalizer` — USD conversion of quotes.
  - `strategy` — the opportunity scan (best bid/offer, depth-weighted mid,
    VWAP execution estimates) and stable sorting of book sides.
  - `store` — bounded history with down-sampling, the memory budget and
    signal counts per symbol and venue pair.
  - `pipeline` — the cadence of the processing loop's periodic work.
  - `feeds` — per-venue message handling, subscriptions, the socket-loop
    session decisions and connection planning.
  - `text` — string operations (comparison, search, integer parsing are
    verified; case mapping and trimming are `str`'s, behind trusted wrappers).
  - `time` — the clock, behind a trusted wrapper, and whole-second ages.
- `tests/` — tests of the library on concrete values.
- `app/` — the process: sockets, HTTP, JSON, the dashboard server, the
  floating-point latency and performance statistics, and the main loop.

## Checking

Verify the library with Verus; the tests run against the compiled library
with the real `rust_decimal`, `chrono`, `url` and `serde_json` crates linked.

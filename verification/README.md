# opentrade

A risk-first automated crypto trading system whose core is verified with Verus.

- `src/` — the verified library: exact decimal arithmetic over `rust_decimal`,
  technical indicators and feature rows, regime detection, the strategies,
  position sizing, the pre-trade risk engine with its kill switches, the order
  manager, the paper exchange, backtest accounting, the Binance request and
  response logic (queries, signatures, candles, balances, fills), and the
  routing decisions of the local-inference pool.  Every public function states
  its result in `ensures`; the laws that relate several operations are public
  proof functions named `law_*`.
- `tests/` — scenario tests run against the compiled library.
- `app/` — the `opentrade` command line: configuration files, HTTP and
  WebSocket transport, SQLite storage, logging, the event loop around the
  library's trading core, and the floating-point neural brain.

Trading cryptocurrency involves substantial risk of loss; nothing here
guarantees profit.

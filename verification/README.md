# lightweight_charts_backend

A trading-chart backend: a live Binance kline feed, a candle cache with
indicators, websocket clients, JWT login, rate limiting, trading strategies
and backtests.

- `src/` is the library, verified with Verus: the circuit breaker and the
  reconnection backoff, the ring-buffer channel, the rate limiter, per-symbol
  sequence numbers, the candle cache bounds, storage keys, token claims and
  bearer headers, request validation, the indicator-DSL and backtest
  condition parsers, the signal scoring, and the strategy and backtest
  decisions (which positions close, which signal opens one and on which side,
  which candles a signal reads, what the websocket handler does on each
  event). Each public function states its result in `ensures`; the laws that
  span calls are public proof functions next to the code they speak of.
- `app/` is the server around it: axum routes, the websocket and Binance I/O,
  RocksDB storage, Prometheus metrics, and the floating-point arithmetic of
  prices, indicators and P&L, which the library does not hold.
- `tests/` runs the library on concrete values.

Left out: the genetic optimizer (population, crossover, mutation, the
optimizer run), whose genome type is defined nowhere in the sources it
builds on, and the health routes, whose module is likewise absent.

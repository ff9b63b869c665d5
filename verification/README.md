# retry-rust

A retry library whose backoff strategies, combinators and retry decisions are
verified with Verus.

- `src/duration.rs`: `Duration`, a span counted in nanoseconds within the range
  of `std::time::Duration`.
- `src/backoff/`: the `Backoff` trait (one `next` call yields the next delay),
  `BackoffExt`, and the strategies `FixedInterval`, `LinearBackoff`,
  `ExponentialBackoff`, `FibonacciBackoff`, and a `Vec` of delays.
- `src/combinator/`: `FullJitter`, `EqualJitter`, `MaxDelay`, `Take`.
- `src/retry.rs`: `RetryState`, which decides after each attempt whether to
  hand back the result or wait the next delay.
- `src/error.rs`, `src/constant.rs`, `src/options.rs`: `RetryError`,
  `RetryStrategy`, `Config`.
- `app/lib.rs`: the loops `retry`, `retry_if`, `retry_async`,
  `retry_async_if`, which attempt the operation and sleep (the async ones on
  Tokio's timer), and an error type with `Display`.

Each strategy's module proves what sequence of delays it yields over any
number of calls.

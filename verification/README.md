# resilient-rs

Retry strategies, a circuit breaker and timeouts with fallback, with every decision
proved by Verus.

- `src/` is the verified library: the delay of each retry (`strategies`), the retry
  schedule that both retry loops follow (`schedule`), the configuration types
  (`config`), the circuit breaker's state machine and the timeout fallback
  (`asynchronous`), and the model of `std::time::Duration` (`duration`).
- `app/` holds what sleeps, awaits or reads the clock: the blocking and asynchronous
  retry loops, `execute_with_fallback`, the circuit breaker's `run`, and usage
  examples. It takes every decision from the library.
- `tests/` exercises the library on concrete values.

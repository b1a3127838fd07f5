//! Fault-tolerance building blocks: retry schedules with linear or exponential
//! backoff, a circuit breaker, and timeout fallbacks.

pub mod duration;
pub mod strategies;
pub mod config;
pub mod schedule;
pub mod asynchronous;

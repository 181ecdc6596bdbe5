//! Verified core of a trading-chart backend: market-data plumbing,
//! resilience (circuit breaker, backoff, rate limiting), indicator-DSL
//! parsing, request validation and trading decisions.

pub mod auth;
pub mod backtest;
pub mod channels;
mod clock;
pub mod db;
pub mod indicator;
pub mod middleware;
pub mod models;
pub mod plugins;
pub mod string_map;
pub mod routes;
pub mod selection;
pub mod text;
pub mod trading;
pub mod utils;
pub mod ws;

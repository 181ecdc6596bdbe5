pub mod binance_listener;
pub mod circuit_breaker;
pub mod handler;

pub use binance_listener::{calculate_backoff, ReconnectPolicy, SequenceTracker};
pub use circuit_breaker::{BreakerState, BreakerView, CircuitBreaker};

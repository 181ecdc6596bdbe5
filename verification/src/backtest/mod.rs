pub mod executor;
pub mod strategy;
pub mod types;

pub use strategy::{parse_signal_condition, SignalCondition};
pub use types::Side;

pub mod backtest;
pub mod strategy;

pub use strategy::StrategyType;

pub mod binance;
pub mod indicators;
pub mod orders;

pub use binance::{BinanceData, BinanceKline, BinanceStreamMessage};
pub use orders::{OrderSide, OrderStatus, OrderType, SignalType};

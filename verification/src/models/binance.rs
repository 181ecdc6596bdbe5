use vstd::prelude::*;

verus! {

/// One message of Binance's combined kline stream.
#[derive(Debug)]
pub struct BinanceStreamMessage {
    pub stream: String,
    pub data: BinanceData,
}

/// The payload of a kline-stream message.
#[derive(Debug)]
pub struct BinanceData {
    pub kline: BinanceKline,
}

/// A kline (candle) update as Binance sends it; prices and volumes are
/// decimal text.
#[derive(Debug)]
pub struct BinanceKline {
    pub start_time: u64,
    pub open: String,
    pub high: String,
    pub low: String,
    pub close: String,
    pub end_time: u64,
    pub symbol: String,
    pub interval: String,
    pub first_trade_id: i64,
    pub last_trade_id: i64,
    pub base_volume: String,
    pub quote_volume: String,
    pub number_of_trades: i64,
    pub is_closed: bool,
    pub taker_buy_base_volume: String,
    pub taker_buy_quote_volume: String,
}

} // verus!

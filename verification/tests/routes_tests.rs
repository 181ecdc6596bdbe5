use lightweight_charts_backend::db::{candle_key, symbol_of_key};
use lightweight_charts_backend::routes::market::{keep_newest, push_bounded, MAX_CANDLES};
use lightweight_charts_backend::routes::trading::validate_strategy_input;
use lightweight_charts_backend::routes::{MarketQuery, StrategyInputError};
use lightweight_charts_backend::models::indicators::{macd_series_position, MACD_START};
use std::collections::VecDeque;

fn risk_ok(risk: f64) -> bool {
    !(risk < 0.1 || risk > 100.0)
}

#[test]
fn test_invalid_input_rejected() {
    let invalid_requests = vec![
        ("", "BTCUSDT", 2.0),
        ("x", "btcusdt", 2.0),
        ("Test", "BTCUSDT", 0.05),
        ("Test", "BTCUSDT", 150.0),
    ];
    for (name, symbol, risk) in invalid_requests {
        assert!(validate_strategy_input(name, risk_ok(risk), symbol, None).is_err());
    }
}

#[test]
fn each_validation_error_has_its_input() {
    assert_eq!(validate_strategy_input("Test", true, "BTCUSDT", Some(1)), Ok(()));
    assert_eq!(validate_strategy_input("", true, "BTCUSDT", None), Err(StrategyInputError::NameLength));
    let long_name = "n".repeat(101);
    assert_eq!(validate_strategy_input(&long_name, true, "BTCUSDT", None), Err(StrategyInputError::NameLength));
    // 50 two-byte characters are 100 bytes: accepted; 51 are not
    assert_eq!(validate_strategy_input(&"é".repeat(50), true, "BTC", None), Ok(()));
    assert_eq!(validate_strategy_input(&"é".repeat(51), true, "BTC", None), Err(StrategyInputError::NameLength));
    assert_eq!(validate_strategy_input("Test", false, "BTCUSDT", None), Err(StrategyInputError::RiskPercent));
    assert_eq!(validate_strategy_input("Test", true, "", None), Err(StrategyInputError::SymbolLength));
    assert_eq!(validate_strategy_input("Test", true, &"A".repeat(21), None), Err(StrategyInputError::SymbolLength));
    assert_eq!(validate_strategy_input("Test", true, "BTC-USD", None), Err(StrategyInputError::SymbolChars));
    assert_eq!(validate_strategy_input("Test", true, "BTC", Some(0)), Err(StrategyInputError::MaxPositions));
    assert_eq!(validate_strategy_input("Test", true, "BTC", Some(11)), Err(StrategyInputError::MaxPositions));
    // the first failing check is reported
    assert_eq!(validate_strategy_input("", false, "", Some(0)), Err(StrategyInputError::NameLength));
    assert_eq!(StrategyInputError::SymbolChars.message(), "symbol must contain only uppercase letters and digits");
    assert_eq!(StrategyInputError::MaxPositions.message(), "max_positions must be between 1 and 10");
}

#[test]
fn market_query_defaults_and_cache_key() {
    let q = MarketQuery { symbol: None, interval: None };
    assert_eq!(q.cache_key(), "btcusdt:1m");
    let q = MarketQuery { symbol: Some("ETHUSDT".to_string()), interval: Some("5m".to_string()) };
    assert_eq!(q.symbol(), "ethusdt");
    assert_eq!(q.interval(), "5m");
    assert_eq!(q.cache_key(), "ethusdt:5m");
}

#[test]
fn test_candle_order_preservation() {
    let mut cache: VecDeque<u64> = VecDeque::new();
    for i in 0..10u64 {
        push_bounded(&mut cache, 1234567890 + i * 60, MAX_CANDLES);
    }
    assert_eq!(cache.len(), 10);
    for i in 1..cache.len() {
        assert!(cache[i] > cache[i - 1]);
    }
}

#[test]
fn cache_keeps_newest_candles() {
    let mut cache: VecDeque<usize> = VecDeque::new();
    for i in 0..(MAX_CANDLES + 20) {
        push_bounded(&mut cache, i, MAX_CANDLES);
    }
    assert_eq!(cache.len(), MAX_CANDLES);
    assert_eq!(cache[0], 20);
    assert_eq!(cache[MAX_CANDLES - 1], MAX_CANDLES + 19);
    let mut d: VecDeque<u8> = (0..10).collect();
    keep_newest(&mut d, 3);
    assert_eq!(d, VecDeque::from(vec![7, 8, 9]));
}

#[test]
fn stored_keys_give_back_their_symbols() {
    assert_eq!(candle_key("btcusdt"), "candles:btcusdt");
    let k = candle_key("ethusdt");
    assert_eq!(symbol_of_key(k.as_bytes()), Some("ethusdt".to_string()));
    assert_eq!(symbol_of_key(b"settings:theme"), None);
    assert_eq!(symbol_of_key(b"candles"), None);
    assert_eq!(symbol_of_key(&[0x63, 0xff, 0xfe]), None);
}

#[test]
fn macd_values_line_up_with_their_candles() {
    assert_eq!(MACD_START, 25);
    // with 26 candles there is one MACD value, at the last candle
    assert_eq!(macd_series_position(0, 26), Some(25));
    assert_eq!(macd_series_position(1, 26), None);
    // the signal line's first value (its 9th) stands at index 33
    assert_eq!(macd_series_position(8, 50), Some(33));
    assert_eq!(macd_series_position(24, 50), Some(49));
    assert_eq!(macd_series_position(25, 50), None);
    assert_eq!(macd_series_position(usize::MAX, 10), None);
}

#[test]
fn symbols_are_lowercased_beyond_ascii_too() {
    let q = MarketQuery { symbol: Some("BtcUsdT".to_string()), interval: None };
    assert_eq!(q.symbol(), "btcusdt");
    let q = MarketQuery { symbol: Some("ÄBC".to_string()), interval: None };
    assert_eq!(q.symbol(), "äbc");
}

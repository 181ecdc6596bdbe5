use lightweight_charts_backend::backtest::parse_signal_condition;
use lightweight_charts_backend::indicator::condition::parse_condition;
use lightweight_charts_backend::indicator::engine::{get_field, token_field, trim_history, PriceField};
use lightweight_charts_backend::indicator::{CmpOp, ConditionError};

#[test]
fn condition_splits_at_operator_and_trims() {
    let p = parse_condition("  close > ema ").unwrap();
    assert_eq!(p.lhs, "close");
    assert_eq!(p.op, CmpOp::Gt);
    assert_eq!(p.rhs, "ema");
}

#[test]
fn two_character_operators_are_found_first() {
    let p = parse_condition("rsi<=30").unwrap();
    assert_eq!((p.lhs.as_str(), p.op, p.rhs.as_str()), ("rsi", CmpOp::Le, "30"));
    let p = parse_condition("a != b").unwrap();
    assert_eq!(p.op, CmpOp::Ne);
    // `<=` is searched before `<`, wherever it occurs
    let p = parse_condition("a < b <= c").unwrap();
    assert_eq!((p.lhs.as_str(), p.op, p.rhs.as_str()), ("a < b", CmpOp::Le, "c"));
}

#[test]
fn condition_without_operator_is_unsupported() {
    let e = parse_condition("close above ema").err().unwrap();
    assert!(matches!(e, ConditionError::UnsupportedFormat));
    assert_eq!(e.message(), "Unsupported condition format");
    let e = ConditionError::UnknownToken("foo".to_string());
    assert_eq!(e.message(), "Unknown token in condition: foo");
}

#[test]
fn signal_condition_needs_three_words() {
    let c = parse_signal_condition("rsi < 30").unwrap();
    assert_eq!((c.left.as_str(), c.op, c.right.as_str()), ("rsi", Some(CmpOp::Lt), "30"));
    let c = parse_signal_condition("close >= ema").unwrap();
    assert_eq!(c.op, Some(CmpOp::Ge));
    let c = parse_signal_condition("close => ema").unwrap();
    assert_eq!(c.op, None);
    assert!(parse_signal_condition("rsi<30").is_none());
    assert!(parse_signal_condition("a < b c").is_none());
}

#[test]
fn comparison_symbols_are_read_exactly() {
    assert_eq!(CmpOp::parse("=="), Some(CmpOp::Eq));
    assert_eq!(CmpOp::parse(">"), Some(CmpOp::Gt));
    assert_eq!(CmpOp::parse("="), None);
    assert_eq!(CmpOp::parse(">=="), None);
}

#[test]
fn fields_are_named_or_default_to_close() {
    assert_eq!(token_field("volume"), Some(PriceField::Volume));
    assert_eq!(token_field("ema"), None);
    assert_eq!(get_field("high"), PriceField::High);
    assert_eq!(get_field("typical"), PriceField::Close);
}

#[test]
fn history_keeps_newest_values() {
    let mut h: Vec<u32> = (0..150).collect();
    trim_history(&mut h, 3);
    assert_eq!(h.len(), 100);
    assert_eq!(h[0], 50);
    assert_eq!(h[99], 149);
    let mut h: Vec<u32> = (0..150).collect();
    trim_history(&mut h, 30);
    assert_eq!(h.len(), 120);
    assert_eq!(h[0], 30);
    let mut h: Vec<u32> = (0..10).collect();
    trim_history(&mut h, 1);
    assert_eq!(h, (0..10).collect::<Vec<u32>>());
    let mut h: Vec<u32> = (0..10).collect();
    trim_history(&mut h, usize::MAX);
    assert_eq!(h.len(), 10);
}

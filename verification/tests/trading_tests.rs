use lightweight_charts_backend::models::{OrderSide, SignalType};
use lightweight_charts_backend::plugins::signals::{PriceMove, RsiZone, SignalGenerator};
use lightweight_charts_backend::plugins::strategy as plugin_strategy;
use lightweight_charts_backend::plugins::signals::SignalType as PluginSignal;
use lightweight_charts_backend::trading::strategy::{entry_side, exit_side, parse_strategy_type, should_enter};
use lightweight_charts_backend::trading::StrategyType;
use lightweight_charts_backend::trading::strategy::plan_update;
use lightweight_charts_backend::selection::{reversed, split_by_flags};
use lightweight_charts_backend::trading::backtest::{order_step, signal_window, PositionStep};
use lightweight_charts_backend::backtest::executor::executor_step;

#[test]
fn strategy_types_are_read_by_name() {
    assert_eq!(parse_strategy_type("rsi_momentum"), StrategyType::RSIMomentum);
    assert_eq!(parse_strategy_type("moving_average_crossover"), StrategyType::MovingAverageCrossover);
    assert_eq!(parse_strategy_type("macd_crossover"), StrategyType::MACDCrossover);
    assert_eq!(parse_strategy_type("multi_indicator"), StrategyType::MultiIndicator);
    assert_eq!(parse_strategy_type("grid"), StrategyType::Custom("grid".to_string()));
}

#[test]
fn entries_follow_signals_and_limits() {
    assert!(should_enter(true, 1, &SignalType::BuySignal, 0));
    assert!(should_enter(true, 1, &SignalType::StrongSell, 0));
    assert!(!should_enter(true, 1, &SignalType::Neutral, 0));
    assert!(!should_enter(true, 1, &SignalType::BuySignal, 1));
    assert!(!should_enter(false, 5, &SignalType::BuySignal, 0));
}

#[test]
fn order_sides_follow_signals() {
    assert_eq!(entry_side(&SignalType::StrongBuy), OrderSide::Buy);
    assert_eq!(entry_side(&SignalType::SellSignal), OrderSide::Sell);
    assert_eq!(entry_side(&SignalType::Neutral), OrderSide::Buy);
    assert_eq!(exit_side(&OrderSide::Buy), OrderSide::Sell);
    assert_eq!(exit_side(&OrderSide::Sell), OrderSide::Buy);
}

#[test]
fn signal_scores_and_classification() {
    // a steadily rising series: RSI at 100, bullish MACD and EMAs, price within 1%
    assert_eq!(
        SignalGenerator::classify(Some(RsiZone::Overbought), Some(true), Some(true), PriceMove::Flat),
        Some(PluginSignal::BuySignal)
    );
    assert_eq!(
        SignalGenerator::scores(Some(RsiZone::Oversold), Some(true), Some(true), PriceMove::Up),
        (11, 0)
    );
    assert_eq!(
        SignalGenerator::classify(Some(RsiZone::Oversold), Some(true), Some(true), PriceMove::Up),
        Some(PluginSignal::StrongBuy)
    );
    assert_eq!(
        SignalGenerator::classify(Some(RsiZone::Overbought), Some(false), None, PriceMove::Flat),
        Some(PluginSignal::StrongSell)
    );
    assert_eq!(SignalGenerator::classify(None, None, None, PriceMove::Flat), None);
    // exactly two points is not enough
    assert_eq!(SignalGenerator::classify(None, Some(true), None, PriceMove::Flat), None);
    // 3.5 against 1: confidence 0.78
    assert_eq!(
        SignalGenerator::classify(Some(RsiZone::Low), Some(true), Some(false), PriceMove::Up),
        Some(PluginSignal::StrongBuy)
    );
    // 3 against 2.5: a buy signal, not a strong one
    assert_eq!(
        SignalGenerator::classify(Some(RsiZone::Elevated), Some(true), Some(true), PriceMove::Down),
        Some(PluginSignal::BuySignal)
    );
}

#[test]
fn plugin_strategy_decisions() {
    assert!(plugin_strategy::should_enter(true, 1, &PluginSignal::SellSignal, 0));
    assert!(!plugin_strategy::should_enter(true, 1, &PluginSignal::Neutral, 0));
    assert_eq!(plugin_strategy::position_side(&PluginSignal::StrongBuy), plugin_strategy::OrderSide::Buy);
    assert_eq!(plugin_strategy::position_side(&PluginSignal::Neutral), plugin_strategy::OrderSide::Sell);
}

#[test]
fn update_closes_flagged_positions_in_order() {
    let positions = vec!["a", "b", "c", "d"];
    let flags = vec![false, true, false, true];
    let (kept, exiting, entry) =
        plan_update(positions, &flags, Some(SignalType::StrongSell), true, 3);
    assert_eq!(kept, vec!["a", "c"]);
    assert_eq!(exiting, vec!["b", "d"]);
    assert_eq!(entry, Some(OrderSide::Sell));
}

#[test]
fn update_decides_entry_after_exits() {
    // one position held, the limit is one: the exit frees the slot
    let (kept, exiting, entry) =
        plan_update(vec![7u32], &vec![true], Some(SignalType::BuySignal), true, 1);
    assert!(kept.is_empty());
    assert_eq!(exiting, vec![7]);
    assert_eq!(entry, Some(OrderSide::Buy));
    // no exit: the slot stays taken
    let (kept, _, entry) =
        plan_update(vec![7u32], &vec![false], Some(SignalType::BuySignal), true, 1);
    assert_eq!(kept, vec![7]);
    assert_eq!(entry, None);
    // a neutral signal, a disabled strategy or no signal open nothing
    assert_eq!(plan_update(Vec::<u32>::new(), &vec![], Some(SignalType::Neutral), true, 1).2, None);
    assert_eq!(plan_update(Vec::<u32>::new(), &vec![], Some(SignalType::BuySignal), false, 1).2, None);
    assert_eq!(plan_update(Vec::<u32>::new(), &vec![], None, true, 1).2, None);
}

#[test]
fn plugin_round_reports_exits_last_first() {
    let (kept, exited, entry) = plugin_strategy::plan_signal(
        vec![1, 2, 3, 4, 5],
        &vec![true, false, true, false, true],
        Some(PluginSignal::SellSignal),
        true,
        5,
    );
    assert_eq!(kept, vec![2, 4]);
    assert_eq!(exited, vec![5, 3, 1]);
    assert_eq!(entry, Some(plugin_strategy::OrderSide::Sell));
    let (_, _, entry) =
        plugin_strategy::plan_signal(vec![1], &vec![false], Some(PluginSignal::StrongBuy), true, 2);
    assert_eq!(entry, Some(plugin_strategy::OrderSide::Buy));
}

#[test]
fn splitting_keeps_every_item_once() {
    let items = vec![10, 20, 30, 40, 50, 60];
    let flags = vec![true, true, false, false, true, false];
    let (kept, left) = split_by_flags(items.clone(), &flags);
    assert_eq!(kept, vec![30, 40, 60]);
    assert_eq!(left, vec![10, 20, 50]);
    assert_eq!(kept.len() + left.len(), items.len());
    assert_eq!(reversed(vec![1, 2, 3]), vec![3, 2, 1]);
    assert_eq!(reversed(Vec::<u8>::new()), Vec::<u8>::new());
}

#[test]
fn backtest_signal_windows() {
    assert_eq!(signal_window(0), None);
    assert_eq!(signal_window(25), None);
    assert_eq!(signal_window(26), Some((0, 27)));
    assert_eq!(signal_window(100), Some((0, 101)));
    assert_eq!(signal_window(150), Some((50, 101)));
}

#[test]
fn backtest_holds_one_position() {
    assert_eq!(order_step(OrderSide::Buy, false), PositionStep::TryOpen);
    assert_eq!(order_step(OrderSide::Buy, true), PositionStep::Ignore);
    assert_eq!(order_step(OrderSide::Sell, true), PositionStep::Close);
    assert_eq!(order_step(OrderSide::Sell, false), PositionStep::Ignore);
}

#[test]
fn executor_buys_once_and_sells_what_it_holds() {
    assert_eq!(executor_step("BUY", false), PositionStep::TryOpen);
    assert_eq!(executor_step("BUY", true), PositionStep::Ignore);
    assert_eq!(executor_step("SELL", true), PositionStep::Close);
    assert_eq!(executor_step("SELL", false), PositionStep::Ignore);
    assert_eq!(executor_step("HOLD", false), PositionStep::Ignore);
    assert_eq!(executor_step("buy", false), PositionStep::Ignore);
}

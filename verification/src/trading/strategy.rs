use vstd::prelude::*;
use crate::models::orders::{OrderSide, SignalType};
use crate::text::str_eq;
use crate::selection::{select, split_by_flags};

verus! {

/// The kind of a trading strategy.
#[derive(Clone, Debug, PartialEq)]
pub enum StrategyType {
    MovingAverageCrossover,
    RSIMomentum,
    MACDCrossover,
    MultiIndicator,
    Custom(String),
}

/// The built-in kind of strategy that a name denotes, if any.
pub open spec fn builtin_strategy_type(name: Seq<char>) -> Option<StrategyType> {
    if name == "moving_average_crossover"@ {
        Some(StrategyType::MovingAverageCrossover)
    } else if name == "rsi_momentum"@ {
        Some(StrategyType::RSIMomentum)
    } else if name == "macd_crossover"@ {
        Some(StrategyType::MACDCrossover)
    } else if name == "multi_indicator"@ {
        Some(StrategyType::MultiIndicator)
    } else {
        None
    }
}

/// Reads the kind of strategy from its name in a request: one of
/// `moving_average_crossover`, `rsi_momentum`, `macd_crossover`,
/// `multi_indicator`, or otherwise a custom strategy under that name.
pub fn parse_strategy_type(name: &str) -> (t: StrategyType)
    ensures
        builtin_strategy_type(name@) matches Some(k) ==> t == k,
        builtin_strategy_type(name@) is None ==> (t matches StrategyType::Custom(n) && n@ == name@),
{
    if str_eq(name, "moving_average_crossover") {
        StrategyType::MovingAverageCrossover
    } else if str_eq(name, "rsi_momentum") {
        StrategyType::RSIMomentum
    } else if str_eq(name, "macd_crossover") {
        StrategyType::MACDCrossover
    } else if str_eq(name, "multi_indicator") {
        StrategyType::MultiIndicator
    } else {
        StrategyType::Custom(name.to_string())
    }
}

/// Whether an enabled strategy with room for another position acts on a
/// signal: it does on every buy or sell signal, and not on a neutral one.
pub open spec fn enters(enabled: bool, max_positions: usize, signal: SignalType, current_positions: usize) -> bool {
    enabled && current_positions < max_positions && signal.is_actionable()
}

/// Whether a strategy opens a position on `signal`, given whether it is
/// enabled, how many positions it may hold and how many it holds.
pub fn should_enter(
    enabled: bool,
    max_positions: usize,
    signal_type: &SignalType,
    current_positions: usize,
) -> (b: bool)
    ensures
        b == enters(enabled, max_positions, *signal_type, current_positions),
{
    if !enabled {
        return false;
    }
    if current_positions >= max_positions {
        return false;
    }
    match signal_type {
        SignalType::BuySignal | SignalType::StrongBuy | SignalType::SellSignal
        | SignalType::StrongSell => true,
        SignalType::Neutral => false,
    }
}

/// The side of the order that opens a position on a signal: buy on a buy
/// signal, sell on a sell signal, and buy otherwise.
pub open spec fn spec_entry_side(signal: SignalType) -> OrderSide {
    match signal {
        SignalType::SellSignal | SignalType::StrongSell => OrderSide::Sell,
        _ => OrderSide::Buy,
    }
}

/// The side of the order that opens a position on `signal_type`.
pub fn entry_side(signal_type: &SignalType) -> (s: OrderSide)
    ensures
        s == spec_entry_side(*signal_type),
{
    match signal_type {
        SignalType::BuySignal | SignalType::StrongBuy => OrderSide::Buy,
        SignalType::SellSignal | SignalType::StrongSell => OrderSide::Sell,
        _ => OrderSide::Buy,
    }
}

/// The position that an update opens, if any: on a signal that the strategy
/// acts on with `held` positions left after the exits, one on the signal's
/// entry side.
pub open spec fn update_entry(
    signal: Option<SignalType>,
    enabled: bool,
    max_positions: usize,
    held: usize,
) -> Option<OrderSide> {
    match signal {
        Some(s) => if enters(enabled, max_positions, s, held) {
            Some(spec_entry_side(s))
        } else {
            None
        },
        None => None,
    }
}

/// One update of a strategy, on its positions and a flag for each that
/// says whether it hit its stop loss or take profit. It returns the
/// positions that stay open, those that close (each closed by an order on
/// the opposite side), both in their order, and the side of the position
/// that the signal opens, if it opens one. The entry is decided on the
/// number of positions left after the exits.
pub fn plan_update<P>(
    positions: Vec<P>,
    exit_flags: &Vec<bool>,
    signal: Option<SignalType>,
    enabled: bool,
    max_positions: usize,
) -> (r: (Vec<P>, Vec<P>, Option<OrderSide>))
    requires
        positions.len() == exit_flags.len(),
    ensures
        r.0@ == select(positions@, exit_flags@, false),
        r.1@ == select(positions@, exit_flags@, true),
        r.2 == update_entry(signal, enabled, max_positions, r.0.len()),
{
    let (kept, exiting) = split_by_flags(positions, exit_flags);
    let entry = match signal {
        Some(s) => if should_enter(enabled, max_positions, &s, kept.len()) {
            Some(entry_side(&s))
        } else {
            None
        },
        None => None,
    };
    (kept, exiting, entry)
}

/// The side of the order that closes a position held on `position_side`.
pub fn exit_side(position_side: &OrderSide) -> (s: OrderSide)
    ensures
        s == position_side.spec_opposite(),
        s != *position_side,
{
    position_side.opposite()
}

/// Closing a position opened on a signal trades against the entry: the exit
/// order's side is never the entry order's side.
pub proof fn lemma_exit_reverses_entry(signal: SignalType)
    ensures
        spec_entry_side(signal).spec_opposite() != spec_entry_side(signal),
        spec_entry_side(signal).spec_opposite().spec_opposite() == spec_entry_side(signal),
{
}

/// An order that opens a position trades in the signal's direction: every
/// buy signal, plain or strong, buys and every sell signal, plain or strong,
/// sells. An update opens a position only on a buy or sell signal, only when
/// the strategy is enabled, and only while fewer than `max_positions`
/// positions are left after the exits.
pub proof fn lemma_entry_follows_signal_direction(
    signal: SignalType,
    enabled: bool,
    max_positions: usize,
    held: usize,
)
    ensures
        (signal == SignalType::BuySignal || signal == SignalType::StrongBuy) ==> spec_entry_side(
            signal,
        ) == OrderSide::Buy,
        (signal == SignalType::SellSignal || signal == SignalType::StrongSell) ==> spec_entry_side(
            signal,
        ) == OrderSide::Sell,
        update_entry(Some(signal), enabled, max_positions, held) is Some <==> (enabled && held
            < max_positions && signal != SignalType::Neutral),
        (enabled && held < max_positions && (signal == SignalType::BuySignal || signal
            == SignalType::StrongBuy)) ==> update_entry(Some(signal), enabled, max_positions, held)
            == Some(OrderSide::Buy),
        (enabled && held < max_positions && (signal == SignalType::SellSignal || signal
            == SignalType::StrongSell)) ==> update_entry(Some(signal), enabled, max_positions, held)
            == Some(OrderSide::Sell),
        update_entry(None, enabled, max_positions, held) is None,
{
}

} // verus!

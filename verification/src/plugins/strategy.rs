use vstd::prelude::*;
use crate::plugins::signals::SignalType;
use crate::selection::{reversed, select, split_by_flags};

verus! {

/// The kind of a trading strategy.
#[derive(Debug, Clone, PartialEq)]
pub enum StrategyType {
    MovingAverageCrossover,
    RSIMomentum,
    MACDCrossover,
    MultiIndicator,
    Custom(String),
}

/// Which way a position trades.
#[derive(Debug, Clone, Copy, PartialEq, Eq, Structural)]
pub enum OrderSide {
    Buy,
    Sell,
}

/// Whether an enabled strategy with room for another position acts on a
/// signal: on every buy or sell signal, not on a neutral one.
pub open spec fn enters(enabled: bool, max_positions: usize, signal: SignalType, current_positions: usize) -> bool {
    enabled && current_positions < max_positions && !(signal is Neutral)
}

/// Whether a strategy opens a position on `signal_type`, given whether it
/// is enabled, how many positions it may hold and how many it holds.
pub fn should_enter(
    enabled: bool,
    max_positions: usize,
    signal_type: &SignalType,
    current_positions: usize,
) -> (b: bool)
    ensures
        b == enters(enabled, max_positions, *signal_type, current_positions),
{
    if !enabled {
        return false;
    }
    if current_positions >= max_positions {
        return false;
    }
    match signal_type {
        SignalType::BuySignal | SignalType::StrongBuy | SignalType::SellSignal
        | SignalType::StrongSell => true,
        SignalType::Neutral => false,
    }
}

/// The side of a position opened on a signal: long on a buy signal, short
/// on anything else.
pub open spec fn spec_position_side(signal: SignalType) -> OrderSide {
    match signal {
        SignalType::BuySignal | SignalType::StrongBuy => OrderSide::Buy,
        _ => OrderSide::Sell,
    }
}

/// The side of a position opened on `signal_type`.
pub fn position_side(signal_type: &SignalType) -> (s: OrderSide)
    ensures
        s == spec_position_side(*signal_type),
{
    match signal_type {
        SignalType::BuySignal | SignalType::StrongBuy => OrderSide::Buy,
        _ => OrderSide::Sell,
    }
}

/// The position that a signal opens, if any: on a signal that the strategy
/// acts on with `held` positions left after the exits, one on the side that
/// the signal gives.
pub open spec fn signal_entry(
    signal: Option<SignalType>,
    enabled: bool,
    max_positions: usize,
    held: usize,
) -> Option<OrderSide> {
    match signal {
        Some(s) => if enters(enabled, max_positions, s, held) {
            Some(spec_position_side(s))
        } else {
            None
        },
        None => None,
    }
}

/// One round of a strategy on a signal, given its positions and a flag for
/// each that says whether it hit its stop loss or take profit. It returns
/// the positions that stay open, in their order; those that close, last
/// one first; and the side of the position that the signal opens, if it
/// opens one, decided on the number of positions left after the exits.
pub fn plan_signal<P>(
    positions: Vec<P>,
    exit_flags: &Vec<bool>,
    signal: Option<SignalType>,
    enabled: bool,
    max_positions: usize,
) -> (r: (Vec<P>, Vec<P>, Option<OrderSide>))
    requires
        positions.len() == exit_flags.len(),
    ensures
        r.0@ == select(positions@, exit_flags@, false),
        r.1@ == select(positions@, exit_flags@, true).reverse(),
        r.2 == signal_entry(signal, enabled, max_positions, r.0.len()),
{
    let (kept, exiting) = split_by_flags(positions, exit_flags);
    let exited = reversed(exiting);
    let entry = match signal {
        Some(s) => if should_enter(enabled, max_positions, &s, kept.len()) {
            Some(position_side(&s))
        } else {
            None
        },
        None => None,
    };
    (kept, exited, entry)
}

/// A position opened on a signal trades in the signal's direction: every
/// buy signal, plain or strong, opens a long (buy) position and every sell
/// signal, plain or strong, a short (sell) one. A round opens a position
/// only on a buy or sell signal, only when the strategy is enabled, and only
/// while fewer than `max_positions` positions are held.
pub proof fn lemma_position_follows_signal_direction(
    signal: SignalType,
    enabled: bool,
    max_positions: usize,
    held: usize,
)
    ensures
        (signal == SignalType::BuySignal || signal == SignalType::StrongBuy) ==> spec_position_side(
            signal,
        ) == OrderSide::Buy,
        (signal == SignalType::SellSignal || signal == SignalType::StrongSell) ==> spec_position_side(
            signal,
        ) == OrderSide::Sell,
        signal_entry(Some(signal), enabled, max_positions, held) is Some <==> (enabled && held
            < max_positions && signal != SignalType::Neutral),
        (enabled && held < max_positions && (signal == SignalType::BuySignal || signal
            == SignalType::StrongBuy)) ==> signal_entry(Some(signal), enabled, max_positions, held)
            == Some(OrderSide::Buy),
        (enabled && held < max_positions && (signal == SignalType::SellSignal || signal
            == SignalType::StrongSell)) ==> signal_entry(Some(signal), enabled, max_positions, held)
            == Some(OrderSide::Sell),
        signal_entry(None, enabled, max_positions, held) is None,
{
}

} // verus!

use vstd::prelude::*;
use crate::models::orders::OrderSide;

verus! {

/// The number of candles a backtest lets pass before it asks for signals:
/// the slowest indicator, the MACD, needs that many.
pub const WARMUP_CANDLES: usize = 26;

/// How many candles before the current one the signal looks back on.
pub const LOOKBACK_CANDLES: usize = 100;

/// The candles that the signal at candle `i` is computed from, as a first
/// index and a count: none during the warm-up, else the candles from up to
/// `LOOKBACK_CANDLES` before `i` through `i` itself.
pub open spec fn spec_signal_window(i: usize) -> Option<(usize, usize)> {
    if i < WARMUP_CANDLES {
        None
    } else {
        let first: int = if i >= LOOKBACK_CANDLES { i - LOOKBACK_CANDLES } else { 0 };
        Some((first as usize, (i - first + 1) as usize))
    }
}

/// The window of candles that the signal at candle `i` is computed from.
pub fn signal_window(i: usize) -> (w: Option<(usize, usize)>)
    ensures
        w == spec_signal_window(i),
{
    if i < WARMUP_CANDLES {
        None
    } else {
        let first = i.saturating_sub(LOOKBACK_CANDLES);
        Some((first, i - first + 1))
    }
}

/// What a backtest does with an order while it holds at most one position.
#[derive(Clone, Copy, Debug, PartialEq, Eq, Structural)]
pub enum PositionStep {
    /// Open a position, if the balance covers its cost and fee.
    TryOpen,
    /// Close the open position.
    Close,
    /// Nothing: a buy while a position is open, or a sell with none.
    Ignore,
}

/// The step that an order on `side` leads to, given whether a position is
/// open: a buy opens one when none is, a sell closes the one that is.
pub open spec fn spec_order_step(side: OrderSide, position_open: bool) -> PositionStep {
    match side {
        OrderSide::Buy => if position_open { PositionStep::Ignore } else { PositionStep::TryOpen },
        OrderSide::Sell => if position_open { PositionStep::Close } else { PositionStep::Ignore },
    }
}

/// The step that an order on `side` leads to, given whether a position is
/// open.
pub fn order_step(side: OrderSide, position_open: bool) -> (s: PositionStep)
    ensures
        s == spec_order_step(side, position_open),
{
    match side {
        OrderSide::Buy => if position_open {
            PositionStep::Ignore
        } else {
            PositionStep::TryOpen
        },
        OrderSide::Sell => if position_open {
            PositionStep::Close
        } else {
            PositionStep::Ignore
        },
    }
}

/// Every window ends at its candle and holds at most `LOOKBACK_CANDLES + 1`
/// candles.
pub proof fn lemma_window_ends_at_candle(i: usize)
    requires
        i >= WARMUP_CANDLES,
    ensures
        spec_signal_window(i) matches Some((first, count)) && first + count == i + 1 && count
            <= LOOKBACK_CANDLES + 1 && count >= 1,
{
}

} // verus!

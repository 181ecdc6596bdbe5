use vstd::prelude::*;
use crate::models::orders::OrderSide;
use crate::text::str_eq;
use crate::trading::backtest::{order_step, spec_order_step, PositionStep};

verus! {

/// The side of the order that an executor signal names: `BUY` or `SELL`;
/// any other text names none.
pub open spec fn signal_side(signal: Seq<char>) -> Option<OrderSide> {
    if signal == "BUY"@ {
        Some(OrderSide::Buy)
    } else if signal == "SELL"@ {
        Some(OrderSide::Sell)
    } else {
        None
    }
}

/// What the backtest executor does on `signal`, given whether it holds a
/// position: `BUY` opens one when none is held, `SELL` closes the one held,
/// and anything else is ignored.
pub fn executor_step(signal: &str, position_open: bool) -> (s: PositionStep)
    ensures
        s == match signal_side(signal@) {
            Some(side) => spec_order_step(side, position_open),
            None => PositionStep::Ignore,
        },
{
    if str_eq(signal, "BUY") {
        order_step(OrderSide::Buy, position_open)
    } else if str_eq(signal, "SELL") {
        order_step(OrderSide::Sell, position_open)
    } else {
        PositionStep::Ignore
    }
}

} // verus!

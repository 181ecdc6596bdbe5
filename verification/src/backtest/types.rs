use vstd::prelude::*;

verus! {

/// The direction of a backtest trade.
#[derive(Debug, Clone, Copy, PartialEq, Eq, Structural)]
pub enum Side {
    Buy,
    Sell,
}

} // verus!

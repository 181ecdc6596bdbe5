use vstd::prelude::*;

verus! {

/// How an order is priced.
#[derive(Clone, Copy, Debug, PartialEq, Eq, Structural)]
pub enum OrderType {
    Market,
    Limit,
}

/// Which way an order trades.
#[derive(Clone, Copy, Debug, PartialEq, Eq, Structural)]
pub enum OrderSide {
    Buy,
    Sell,
}

/// Where an order stands.
#[derive(Clone, Copy, Debug, PartialEq, Eq, Structural)]
pub enum OrderStatus {
    Pending,
    Filled,
    PartiallyFilled,
    Cancelled,
    Rejected,
}

/// What the indicators advise.
#[derive(Clone, Copy, Debug, PartialEq, Eq, Structural)]
pub enum SignalType {
    BuySignal,
    SellSignal,
    StrongBuy,
    StrongSell,
    Neutral,
}

impl OrderSide {
    /// The other side.
    pub open spec fn spec_opposite(self) -> OrderSide {
        match self {
            OrderSide::Buy => OrderSide::Sell,
            OrderSide::Sell => OrderSide::Buy,
        }
    }

    /// The side that closes a position opened on this side.
    pub fn opposite(&self) -> (s: OrderSide)
        ensures
            s == self.spec_opposite(),
    {
        match self {
            OrderSide::Buy => OrderSide::Sell,
            OrderSide::Sell => OrderSide::Buy,
        }
    }
}

impl SignalType {
    /// Whether the signal advises buying or selling (rather than nothing).
    pub open spec fn is_actionable(self) -> bool {
        !(self is Neutral)
    }
}

} // verus!

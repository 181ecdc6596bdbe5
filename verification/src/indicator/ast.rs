use vstd::prelude::*;

verus! {

/// A compiled indicator operation: which statistic to compute over which
/// candle field, over how many periods, and under which output name.
#[derive(Debug, Clone, PartialEq)]
pub enum Op {
    EMA { period: usize, field: String, out: String },
    RSI { period: usize, field: String, out: String },
    Highest { period: usize, field: String, out: String },
    Lowest { period: usize, field: String, out: String },
}

} // verus!

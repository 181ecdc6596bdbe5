use vstd::prelude::*;

verus! {

/// One step of an indicator definition as users write it.
#[derive(Debug, Clone)]
pub enum LogicNode {
    EMA { period: usize, field: String, output: String },
    RSI { period: usize, field: String, output: String },
    Highest { period: usize, field: String, output: String },
    Lowest { period: usize, field: String, output: String },
}

/// A rule that emits `action` when `condition` holds.
#[derive(Debug, Clone)]
pub struct SignalNode {
    pub condition: String,
    pub action: String,
}

} // verus!

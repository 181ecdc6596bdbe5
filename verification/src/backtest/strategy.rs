use vstd::prelude::*;
use crate::indicator::condition::CmpOp;
use crate::text::{split_whitespace, views, words};

verus! {

/// A backtest condition such as `rsi < 30`: a left operand, an operator
/// (`None` when the middle word is no supported operator, in which case the
/// condition never holds) and a right operand.
pub struct SignalCondition {
    pub left: String,
    pub op: Option<CmpOp>,
    pub right: String,
}

/// How a backtest condition reads: exactly three whitespace-separated words,
/// the middle one read as an operator.
pub open spec fn read_signal_condition(s: Seq<char>) -> Option<(Seq<char>, Option<CmpOp>, Seq<char>)> {
    let w = words(s);
    if w.len() == 3 {
        Some((w[0], CmpOp::from_symbol(w[1]), w[2]))
    } else {
        None
    }
}

/// Reads a backtest condition; `None` when it is not exactly three words,
/// in which case the condition never holds.
pub fn parse_signal_condition(condition: &str) -> (r: Option<SignalCondition>)
    ensures
        r matches Some(c) ==> read_signal_condition(condition@) == Some((c.left@, c.op, c.right@)),
        r is None ==> read_signal_condition(condition@) is None,
{
    let mut parts = split_whitespace(condition);
    if parts.len() != 3 {
        return None;
    }
    let ghost w = views(parts@);
    assert(w[0] == parts@[0]@ && w[1] == parts@[1]@ && w[2] == parts@[2]@);
    let right = parts.pop().unwrap();
    let middle = parts.pop().unwrap();
    let left = parts.pop().unwrap();
    let op = CmpOp::parse(middle.as_str());
    Some(SignalCondition { left, op, right })
}

} // verus!

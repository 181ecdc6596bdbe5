use vstd::prelude::*;
use crate::text::str_eq;

verus! {

/// A price or volume field of a candle.
#[derive(Debug, Clone, Copy, PartialEq, Eq, Structural)]
pub enum PriceField {
    Open,
    High,
    Low,
    Close,
    Volume,
}

/// The candle field that a name denotes, if it denotes one.
pub open spec fn named_field(name: Seq<char>) -> Option<PriceField> {
    if name == "open"@ {
        Some(PriceField::Open)
    } else if name == "high"@ {
        Some(PriceField::High)
    } else if name == "low"@ {
        Some(PriceField::Low)
    } else if name == "close"@ {
        Some(PriceField::Close)
    } else if name == "volume"@ {
        Some(PriceField::Volume)
    } else {
        None
    }
}

/// The candle field that a condition token names, if any.
pub fn token_field(token: &str) -> (r: Option<PriceField>)
    ensures
        r == named_field(token@),
{
    if str_eq(token, "open") {
        Some(PriceField::Open)
    } else if str_eq(token, "high") {
        Some(PriceField::High)
    } else if str_eq(token, "low") {
        Some(PriceField::Low)
    } else if str_eq(token, "close") {
        Some(PriceField::Close)
    } else if str_eq(token, "volume") {
        Some(PriceField::Volume)
    } else {
        None
    }
}

/// The candle field an indicator reads: the one named, or the close when the
/// name is none of the fields.
pub fn get_field(field: &str) -> (r: PriceField)
    ensures
        named_field(field@) matches Some(f) ==> r == f,
        named_field(field@) is None ==> r == PriceField::Close,
{
    match token_field(field) {
        Some(f) => f,
        None => PriceField::Close,
    }
}

/// How many past values are kept for an indicator over `period` values:
/// four periods, and never fewer than one hundred.
pub open spec fn history_limit(period: usize) -> int {
    let four = if period * 4 > usize::MAX { usize::MAX as int } else { period * 4 };
    if four > 100 {
        four
    } else {
        100
    }
}

/// Drops the oldest values of `history` so that at most
/// `history_limit(period)` remain; the newest are kept, in order.
pub fn trim_history<T>(history: &mut Vec<T>, period: usize)
    ensures
        old(history)@.len() > history_limit(period) ==> final(history)@ == old(history)@.subrange(
            old(history)@.len() - history_limit(period),
            old(history)@.len() as int,
        ),
        old(history)@.len() <= history_limit(period) ==> final(history)@ == old(history)@,
{
    let four = match period.checked_mul(4) {
        Some(x) => x,
        None => usize::MAX,
    };
    let max_store = if four > 100 {
        four
    } else {
        100
    };
    if history.len() > max_store {
        let drain = history.len() - max_store;
        let kept = history.split_off(drain);
        *history = kept;
    }
}

} // verus!

use vstd::prelude::*;

verus! {

/// The index of the first candle with a 26-period EMA, and so with a MACD
/// value: the 26th, at index 25.
pub const MACD_START: usize = 25;

/// Where the `j`-th value of the MACD line, and of the signal line computed
/// over it, stands in a candle series of `len` candles: at `MACD_START + j`
/// (so the signal line, whose 9-period EMA first exists at its 9th value,
/// starts at index 33); `None` when that lies past the end of the series.
pub fn macd_series_position(j: usize, len: usize) -> (p: Option<usize>)
    ensures
        p == if j + MACD_START < len {
            Some((j + MACD_START) as usize)
        } else {
            None::<usize>
        },
{
    if j < len && len - j > MACD_START {
        Some(j + MACD_START)
    } else {
        None
    }
}

} // verus!

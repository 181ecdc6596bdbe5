use vstd::prelude::*;

verus! {

/// What the indicators advise.
#[derive(Debug, Clone, Copy, PartialEq, Eq, Structural)]
pub enum SignalType {
    BuySignal,
    SellSignal,
    StrongBuy,
    StrongSell,
    Neutral,
}

/// Produces trading signals from the indicators of a price series.
pub struct SignalGenerator;

/// Where the RSI stands: below 30, below 40, above 70, above 60, or in
/// between.
#[derive(Debug, Clone, Copy, PartialEq, Eq, Structural)]
pub enum RsiZone {
    Oversold,
    Low,
    Neutral,
    Elevated,
    Overbought,
}

/// How the current price stands against the last close: more than 1%
/// above, more than 1% below, or within 1%.
#[derive(Debug, Clone, Copy, PartialEq, Eq, Structural)]
pub enum PriceMove {
    Up,
    Down,
    Flat,
}

/// The buying score of a set of indicator readings, in half points: the RSI
/// gives 2 points below 30 and 1 below 40, a bullish MACD 2, a bullish EMA
/// crossover 1, and a price more than 1% above the last close half a point.
pub open spec fn buy_half_points(
    rsi: Option<RsiZone>,
    macd_bullish: Option<bool>,
    ema_bullish: Option<bool>,
    price: PriceMove,
) -> nat {
    (match rsi {
        Some(RsiZone::Oversold) => 4nat,
        Some(RsiZone::Low) => 2nat,
        _ => 0nat,
    }) + (if macd_bullish == Some(true) { 4nat } else { 0nat }) + (if ema_bullish == Some(true) {
        2nat
    } else {
        0nat
    }) + (if price == PriceMove::Up { 1nat } else { 0nat })
}

/// The selling score, in half points, mirroring the buying score: the RSI
/// gives 2 points above 70 and 1 above 60, a bearish MACD 2, a bearish EMA
/// crossover 1, and a price more than 1% below the last close half a point.
pub open spec fn sell_half_points(
    rsi: Option<RsiZone>,
    macd_bullish: Option<bool>,
    ema_bullish: Option<bool>,
    price: PriceMove,
) -> nat {
    (match rsi {
        Some(RsiZone::Overbought) => 4nat,
        Some(RsiZone::Elevated) => 2nat,
        _ => 0nat,
    }) + (if macd_bullish == Some(false) { 4nat } else { 0nat }) + (if ema_bullish == Some(false) {
        2nat
    } else {
        0nat
    }) + (if price == PriceMove::Down { 1nat } else { 0nat })
}

/// The signal for two scores (in half points): the larger score wins when it
/// exceeds 2 points, and the signal is strong when the winner's share of
/// the total (the confidence) exceeds 0.7; otherwise there is no signal.
pub open spec fn signal_for_scores(buy: nat, sell: nat) -> Option<SignalType> {
    if buy > sell && buy > 4 {
        Some(
            if buy * 10 > (buy + sell) * 7 {
                SignalType::StrongBuy
            } else {
                SignalType::BuySignal
            },
        )
    } else if sell > buy && sell > 4 {
        Some(
            if sell * 10 > (buy + sell) * 7 {
                SignalType::StrongSell
            } else {
                SignalType::SellSignal
            },
        )
    } else {
        None
    }
}

/// The signal for a set of indicator readings.
pub open spec fn signal_for(
    rsi: Option<RsiZone>,
    macd_bullish: Option<bool>,
    ema_bullish: Option<bool>,
    price: PriceMove,
) -> Option<SignalType> {
    signal_for_scores(
        buy_half_points(rsi, macd_bullish, ema_bullish, price),
        sell_half_points(rsi, macd_bullish, ema_bullish, price),
    )
}

impl SignalGenerator {
    /// The buying and selling scores of a set of indicator readings, in
    /// half points.
    pub fn scores(
        rsi: Option<RsiZone>,
        macd_bullish: Option<bool>,
        ema_bullish: Option<bool>,
        price: PriceMove,
    ) -> (r: (u32, u32))
        ensures
            r.0 == buy_half_points(rsi, macd_bullish, ema_bullish, price),
            r.1 == sell_half_points(rsi, macd_bullish, ema_bullish, price),
    {
        let mut buy: u32 = 0;
        let mut sell: u32 = 0;
        match rsi {
            Some(RsiZone::Oversold) => buy = buy + 4,
            Some(RsiZone::Low) => buy = buy + 2,
            Some(RsiZone::Overbought) => sell = sell + 4,
            Some(RsiZone::Elevated) => sell = sell + 2,
            _ => {},
        }
        match macd_bullish {
            Some(true) => buy = buy + 4,
            Some(false) => sell = sell + 4,
            None => {},
        }
        match ema_bullish {
            Some(true) => buy = buy + 2,
            Some(false) => sell = sell + 2,
            None => {},
        }
        match price {
            PriceMove::Up => buy = buy + 1,
            PriceMove::Down => sell = sell + 1,
            PriceMove::Flat => {},
        }
        (buy, sell)
    }

    /// The signal that a set of indicator readings gives, if any.
    pub fn classify(
        rsi: Option<RsiZone>,
        macd_bullish: Option<bool>,
        ema_bullish: Option<bool>,
        price: PriceMove,
    ) -> (s: Option<SignalType>)
        ensures
            s == signal_for(rsi, macd_bullish, ema_bullish, price),
    {
        let (buy, sell) = Self::scores(rsi, macd_bullish, ema_bullish, price);
        let buy = buy as u64;
        let sell = sell as u64;
        if buy > sell && buy > 4 {
            if buy * 10 > (buy + sell) * 7 {
                Some(SignalType::StrongBuy)
            } else {
                Some(SignalType::BuySignal)
            }
        } else if sell > buy && sell > 4 {
            if sell * 10 > (buy + sell) * 7 {
                Some(SignalType::StrongSell)
            } else {
                Some(SignalType::SellSignal)
            }
        } else {
            None
        }
    }
}

/// The reading of the opposite market: oversold and overbought trade
/// places, bullish and bearish trade places, up and down trade places.
pub open spec fn mirror_zone(z: Option<RsiZone>) -> Option<RsiZone> {
    match z {
        Some(RsiZone::Oversold) => Some(RsiZone::Overbought),
        Some(RsiZone::Low) => Some(RsiZone::Elevated),
        Some(RsiZone::Elevated) => Some(RsiZone::Low),
        Some(RsiZone::Overbought) => Some(RsiZone::Oversold),
        other => other,
    }
}

/// A bullish reading turned bearish and back.
pub open spec fn mirror_flag(b: Option<bool>) -> Option<bool> {
    match b {
        Some(x) => Some(!x),
        None => None,
    }
}

/// A price move turned the other way.
pub open spec fn mirror_move(m: PriceMove) -> PriceMove {
    match m {
        PriceMove::Up => PriceMove::Down,
        PriceMove::Down => PriceMove::Up,
        PriceMove::Flat => PriceMove::Flat,
    }
}

/// A signal turned the other way.
pub open spec fn mirror_signal(s: Option<SignalType>) -> Option<SignalType> {
    match s {
        Some(SignalType::BuySignal) => Some(SignalType::SellSignal),
        Some(SignalType::SellSignal) => Some(SignalType::BuySignal),
        Some(SignalType::StrongBuy) => Some(SignalType::StrongSell),
        Some(SignalType::StrongSell) => Some(SignalType::StrongBuy),
        other => other,
    }
}

/// The rules favour neither side: the mirrored readings give the mirrored
/// signal.
pub proof fn lemma_signal_symmetric(
    rsi: Option<RsiZone>,
    macd_bullish: Option<bool>,
    ema_bullish: Option<bool>,
    price: PriceMove,
)
    ensures
        signal_for(mirror_zone(rsi), mirror_flag(macd_bullish), mirror_flag(ema_bullish), mirror_move(price))
            == mirror_signal(signal_for(rsi, macd_bullish, ema_bullish, price)),
{
    assert(buy_half_points(mirror_zone(rsi), mirror_flag(macd_bullish), mirror_flag(ema_bullish), mirror_move(price))
        == sell_half_points(rsi, macd_bullish, ema_bullish, price));
    assert(sell_half_points(mirror_zone(rsi), mirror_flag(macd_bullish), mirror_flag(ema_bullish), mirror_move(price))
        == buy_half_points(rsi, macd_bullish, ema_bullish, price));
}

/// A signal is never given without a clear winner: a buy signal needs more
/// buying than selling points, and more than two of them; likewise for a
/// sell signal. Neutral is never given.
pub proof fn lemma_signal_needs_majority(buy: nat, sell: nat)
    ensures
        signal_for_scores(buy, sell) matches Some(s) ==> s != SignalType::Neutral,
        signal_for_scores(buy, sell) matches Some(SignalType::BuySignal) ==> buy > sell && buy > 4,
        signal_for_scores(buy, sell) matches Some(SignalType::StrongBuy) ==> buy > sell && buy > 4,
        signal_for_scores(buy, sell) matches Some(SignalType::SellSignal) ==> sell > buy && sell > 4,
        signal_for_scores(buy, sell) matches Some(SignalType::StrongSell) ==> sell > buy && sell > 4,
        buy == sell ==> signal_for_scores(buy, sell) is None,
{
}

} // verus!

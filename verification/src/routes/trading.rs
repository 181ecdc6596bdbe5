use vstd::prelude::*;
use crate::text::chars_of;

verus! {

/// Why a request to create a strategy is refused.
#[derive(Clone, Copy, Debug, PartialEq, Eq, Structural)]
pub enum StrategyInputError {
    /// The name is empty or longer than 100 bytes.
    NameLength,
    /// The risk per trade is outside 0.1 to 100 percent.
    RiskPercent,
    /// The symbol is empty or longer than 20 bytes.
    SymbolLength,
    /// The symbol holds something other than uppercase letters and digits.
    SymbolChars,
    /// The number of positions is outside 1 to 10.
    MaxPositions,
}

impl StrategyInputError {
    /// The message reported for the error.
    pub fn message(&self) -> (m: &'static str)
        ensures
            *self == StrategyInputError::NameLength ==> m@
                == "name must be between 1 and 100 characters"@,
            *self == StrategyInputError::RiskPercent ==> m@
                == "risk_percent must be between 0.1 and 100.0"@,
            *self == StrategyInputError::SymbolLength ==> m@
                == "symbol must be between 1 and 20 characters"@,
            *self == StrategyInputError::SymbolChars ==> m@
                == "symbol must contain only uppercase letters and digits"@,
            *self == StrategyInputError::MaxPositions ==> m@
                == "max_positions must be between 1 and 10"@,
    {
        match self {
            StrategyInputError::NameLength => "name must be between 1 and 100 characters",
            StrategyInputError::RiskPercent => "risk_percent must be between 0.1 and 100.0",
            StrategyInputError::SymbolLength => "symbol must be between 1 and 20 characters",
            StrategyInputError::SymbolChars => "symbol must contain only uppercase letters and digits",
            StrategyInputError::MaxPositions => "max_positions must be between 1 and 10",
        }
    }
}

/// Whether a character is an ASCII uppercase letter or an ASCII digit.
pub open spec fn is_symbol_char(c: char) -> bool {
    ('A' <= c && c <= 'Z') || ('0' <= c && c <= '9')
}

/// The outcome of validating a request to create a strategy. The checks
/// are made in order: the name's length in bytes (1 to 100), the risk per
/// trade (whose range check on the number is given as `risk_in_range`),
/// the symbol's length in bytes (1 to 20), the symbol's characters
/// (uppercase letters and digits) and the number of positions (1 to 10);
/// the first that fails is reported.
pub open spec fn validation(
    name: &str,
    risk_in_range: bool,
    symbol: &str,
    max_positions: Option<usize>,
) -> Result<(), StrategyInputError> {
    if name@.len() == 0 || name.len() > 100 {
        Err(StrategyInputError::NameLength)
    } else if !risk_in_range {
        Err(StrategyInputError::RiskPercent)
    } else if symbol@.len() == 0 || symbol.len() > 20 {
        Err(StrategyInputError::SymbolLength)
    } else if !(forall|i: int| 0 <= i < symbol@.len() ==> is_symbol_char(#[trigger] symbol@[i])) {
        Err(StrategyInputError::SymbolChars)
    } else if max_positions matches Some(m) && (m < 1 || m > 10) {
        Err(StrategyInputError::MaxPositions)
    } else {
        Ok(())
    }
}

/// Whether every character of `symbol` is an uppercase letter or a digit.
fn symbol_chars_valid(symbol: &str) -> (b: bool)
    ensures
        b == (forall|i: int| 0 <= i < symbol@.len() ==> is_symbol_char(#[trigger] symbol@[i])),
{
    let v = chars_of(symbol);
    let mut i: usize = 0;
    while i < v.len()
        invariant
            v@ == symbol@,
            i <= v@.len(),
            forall|k: int| 0 <= k < i ==> is_symbol_char(#[trigger] symbol@[k]),
        decreases v.len() - i,
    {
        let c = v[i];
        if !(('A' <= c && c <= 'Z') || ('0' <= c && c <= '9')) {
            assert(!is_symbol_char(symbol@[i as int]));
            return false;
        }
        i = i + 1;
    }
    true
}

/// Validates a request to create a strategy; see `validation`.
pub fn validate_strategy_input(
    name: &str,
    risk_in_range: bool,
    symbol: &str,
    max_positions: Option<usize>,
) -> (r: Result<(), StrategyInputError>)
    ensures
        r == validation(name, risk_in_range, symbol, max_positions),
{
    if name.is_empty() || name.len() > 100 {
        return Err(StrategyInputError::NameLength);
    }
    if !risk_in_range {
        return Err(StrategyInputError::RiskPercent);
    }
    if symbol.is_empty() || symbol.len() > 20 {
        return Err(StrategyInputError::SymbolLength);
    }
    if !symbol_chars_valid(symbol) {
        return Err(StrategyInputError::SymbolChars);
    }
    match max_positions {
        Some(m) => {
            if m < 1 || m > 10 {
                return Err(StrategyInputError::MaxPositions);
            }
        },
        None => {},
    }
    Ok(())
}

/// A request whose name, risk and symbol are acceptable is accepted when it
/// names no limit on positions or a limit from 1 to 10, and is refused for
/// its position limit when that limit is 0 or above 10.
pub proof fn lemma_position_limit_accepted_from_one_to_ten(
    name: &str,
    risk_in_range: bool,
    symbol: &str,
    max_positions: usize,
)
    requires
        1 <= name@.len(),
        name.len() <= 100,
        risk_in_range,
        1 <= symbol@.len(),
        symbol.len() <= 20,
        forall|i: int|
            0 <= i < symbol@.len() ==> ('A' <= #[trigger] symbol@[i] && symbol@[i] <= 'Z') || (
            '0' <= symbol@[i] && symbol@[i] <= '9'),
    ensures
        validation(name, risk_in_range, symbol, None) == Ok::<(), StrategyInputError>(()),
        1 <= max_positions <= 10 ==> validation(name, risk_in_range, symbol, Some(max_positions))
            == Ok::<(), StrategyInputError>(()),
        (max_positions == 0 || max_positions > 10) ==> validation(
            name,
            risk_in_range,
            symbol,
            Some(max_positions),
        ) == Err::<(), StrategyInputError>(StrategyInputError::MaxPositions),
{
}

/// A request is accepted exactly when its name has 1 to 100 bytes, its risk
/// is in range, its symbol has 1 to 20 bytes of uppercase letters and
/// digits, and its position limit, if it names one, lies from 1 to 10.
pub proof fn lemma_accepted_requests(
    name: &str,
    risk_in_range: bool,
    symbol: &str,
    max_positions: Option<usize>,
)
    ensures
        validation(name, risk_in_range, symbol, max_positions) is Ok <==> {
            &&& 1 <= name@.len()
            &&& name.len() <= 100
            &&& risk_in_range
            &&& 1 <= symbol@.len()
            &&& symbol.len() <= 20
            &&& forall|i: int|
                0 <= i < symbol@.len() ==> ('A' <= #[trigger] symbol@[i] && symbol@[i] <= 'Z') || (
                '0' <= symbol@[i] && symbol@[i] <= '9')
            &&& match max_positions {
                Some(m) => 1 <= m && m <= 10,
                None => true,
            }
        },
{
}

} // verus!

use vstd::prelude::*;
use crate::text::{chars_of, find, find_in, substring, trim, trim_bounds};

verus! {

/// A comparison between two values of a condition.
#[derive(Debug, Clone, Copy, PartialEq, Eq, Structural)]
pub enum CmpOp {
    Le,
    Ge,
    Eq,
    Ne,
    Lt,
    Gt,
}

impl CmpOp {
    /// How the comparison is written.
    pub open spec fn symbol(self) -> Seq<char> {
        match self {
            CmpOp::Le => seq!['<', '='],
            CmpOp::Ge => seq!['>', '='],
            CmpOp::Eq => seq!['=', '='],
            CmpOp::Ne => seq!['!', '='],
            CmpOp::Lt => seq!['<'],
            CmpOp::Gt => seq!['>'],
        }
    }

    /// The comparison written exactly as `s`, if any.
    pub open spec fn from_symbol(s: Seq<char>) -> Option<CmpOp> {
        if s == CmpOp::Le.symbol() {
            Some(CmpOp::Le)
        } else if s == CmpOp::Ge.symbol() {
            Some(CmpOp::Ge)
        } else if s == CmpOp::Eq.symbol() {
            Some(CmpOp::Eq)
        } else if s == CmpOp::Ne.symbol() {
            Some(CmpOp::Ne)
        } else if s == CmpOp::Lt.symbol() {
            Some(CmpOp::Lt)
        } else if s == CmpOp::Gt.symbol() {
            Some(CmpOp::Gt)
        } else {
            None
        }
    }

    /// The characters of the comparison's symbol.
    pub fn symbol_chars(&self) -> (v: Vec<char>)
        ensures
            v@ == self.symbol(),
    {
        let v = match self {
            CmpOp::Le => vec!['<', '='],
            CmpOp::Ge => vec!['>', '='],
            CmpOp::Eq => vec!['=', '='],
            CmpOp::Ne => vec!['!', '='],
            CmpOp::Lt => vec!['<'],
            CmpOp::Gt => vec!['>'],
        };
        assert(v@ =~= self.symbol());
        v
    }

    /// Reads a comparison from its symbol.
    pub fn parse(s: &str) -> (r: Option<CmpOp>)
        ensures
            r == CmpOp::from_symbol(s@),
    {
        let v = chars_of(s);
        if v.len() == 2 && v[0] == '<' && v[1] == '=' {
            assert(v@ =~= CmpOp::Le.symbol());
            Some(CmpOp::Le)
        } else if v.len() == 2 && v[0] == '>' && v[1] == '=' {
            assert(v@ =~= CmpOp::Ge.symbol());
            Some(CmpOp::Ge)
        } else if v.len() == 2 && v[0] == '=' && v[1] == '=' {
            assert(v@ =~= CmpOp::Eq.symbol());
            Some(CmpOp::Eq)
        } else if v.len() == 2 && v[0] == '!' && v[1] == '=' {
            assert(v@ =~= CmpOp::Ne.symbol());
            Some(CmpOp::Ne)
        } else if v.len() == 1 && v[0] == '<' {
            assert(v@ =~= CmpOp::Lt.symbol());
            Some(CmpOp::Lt)
        } else if v.len() == 1 && v[0] == '>' {
            assert(v@ =~= CmpOp::Gt.symbol());
            Some(CmpOp::Gt)
        } else {
            None
        }
    }
}

/// The order in which a condition is searched for operators: two-character
/// operators first, so that `<=` is not read as `<`.
pub open spec fn search_order() -> Seq<CmpOp> {
    seq![CmpOp::Le, CmpOp::Ge, CmpOp::Eq, CmpOp::Ne, CmpOp::Lt, CmpOp::Gt]
}

/// `s` split at the first occurrence of `op`: the trimmed text before it,
/// `op`, and the trimmed text after it.
pub open spec fn split_at_op(s: Seq<char>, op: CmpOp) -> Option<(Seq<char>, CmpOp, Seq<char>)> {
    match find(s, op.symbol()) {
        Some(pos) => Some(
            (
                trim(s.subrange(0, pos)),
                op,
                trim(s.subrange(pos + op.symbol().len(), s.len() as int)),
            ),
        ),
        None => None,
    }
}

/// `s` split at the first of `ops` that occurs in it.
pub open spec fn split_first(s: Seq<char>, ops: Seq<CmpOp>) -> Option<(Seq<char>, CmpOp, Seq<char>)>
    decreases ops.len(),
{
    if ops.len() == 0 {
        None
    } else {
        match split_at_op(s, ops[0]) {
            Some(parts) => Some(parts),
            None => split_first(s, ops.drop_first()),
        }
    }
}

/// How a condition such as `close > ema` reads: the operand before the
/// operator, the operator, and the operand after it.
pub open spec fn split_condition(s: Seq<char>) -> Option<(Seq<char>, CmpOp, Seq<char>)> {
    split_first(s, search_order())
}

/// The parts of a condition.
pub struct ConditionParts {
    pub lhs: String,
    pub op: CmpOp,
    pub rhs: String,
}

impl View for ConditionParts {
    type V = (Seq<char>, CmpOp, Seq<char>);

    open spec fn view(&self) -> (Seq<char>, CmpOp, Seq<char>) {
        (self.lhs@, self.op, self.rhs@)
    }
}

/// Why a condition could not be evaluated.
#[derive(Debug, Clone)]
pub enum ConditionError {
    /// The condition holds none of the supported operators.
    UnsupportedFormat,
    /// An operand is neither a number, a computed output nor a candle field.
    UnknownToken(String),
}

impl ConditionError {
    /// The message reported for this error.
    pub fn message(&self) -> (m: String)
        ensures
            self is UnsupportedFormat ==> m@ == "Unsupported condition format"@,
            self matches ConditionError::UnknownToken(t) ==> m@ == "Unknown token in condition: "@
                + t@,
    {
        match self {
            ConditionError::UnsupportedFormat => "Unsupported condition format".to_string(),
            ConditionError::UnknownToken(t) => {
                let m = "Unknown token in condition: ".to_string();
                m.concat(t.as_str())
            },
        }
    }
}

/// Splits `condition` at `op` if `op` occurs in it.
fn split_at(condition: &str, v: &Vec<char>, op: CmpOp) -> (r: Option<ConditionParts>)
    requires
        v@ == condition@,
    ensures
        r matches Some(p) ==> split_at_op(condition@, op) == Some(p@),
        r is None ==> split_at_op(condition@, op) is None,
{
    let sym = op.symbol_chars();
    match find_in(v, &sym) {
        None => None,
        Some(pos) => {
            assert(pos + sym@.len() <= v.len());
            let end = pos + sym.len();
            let (a, b) = trim_bounds(v, 0, pos);
            let (c, d) = trim_bounds(v, end, v.len());
            let lhs = substring(condition, a, b);
            let rhs = substring(condition, c, d);
            Some(ConditionParts { lhs, op, rhs })
        },
    }
}

/// Splits a condition such as `close > ema` into its operands and operator.
/// The operators are searched for in the order `<=`, `>=`, `==`, `!=`, `<`,
/// `>`; the first one found anywhere in the text is the one split at.
pub fn parse_condition(condition: &str) -> (r: Result<ConditionParts, ConditionError>)
    ensures
        r matches Ok(p) ==> split_condition(condition@) == Some(p@),
        r matches Err(e) ==> split_condition(condition@) is None && e is UnsupportedFormat,
{
    let v = chars_of(condition);
    let ops = vec![CmpOp::Le, CmpOp::Ge, CmpOp::Eq, CmpOp::Ne, CmpOp::Lt, CmpOp::Gt];
    assert(ops@ =~= search_order());
    assert(ops@.subrange(0, ops@.len() as int) =~= ops@);
    let mut i: usize = 0;
    while i < ops.len()
        invariant
            v@ == condition@,
            ops@ == search_order(),
            i <= ops@.len(),
            split_condition(condition@) == split_first(
                condition@,
                ops@.subrange(i as int, ops@.len() as int),
            ),
        decreases ops.len() - i,
    {
        assert(ops@.subrange(i as int, ops@.len() as int).drop_first() =~= ops@.subrange(
            i + 1,
            ops@.len() as int,
        ));
        match split_at(condition, &v, ops[i]) {
            Some(p) => {
                return Ok(p);
            },
            None => {},
        }
        i = i + 1;
    }
    Err(ConditionError::UnsupportedFormat)
}

} // verus!

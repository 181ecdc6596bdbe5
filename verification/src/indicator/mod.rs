pub mod ast;
pub mod condition;
pub mod dsl;
pub mod engine;

pub use ast::Op;
pub use condition::{CmpOp, ConditionError, ConditionParts};
pub use dsl::{LogicNode, SignalNode};

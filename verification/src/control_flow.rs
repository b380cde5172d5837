//! What the evaluation of an expression, a statement or a branch reports back.

use vstd::prelude::*;
use crate::ids::BlockId;
use crate::value::Value;

verus! {

/// Represents the possible control flow options that can result from a branch.
#[derive(Debug, PartialEq, Eq)]
pub enum BranchControlFlow {
    /// The block ID corresponding to a branch.
    Block(BlockId),
    /// The return value resulting from a branch.
    Return(Value),
}

/// Represents the possible control flow options that an evaluation can have.
#[derive(Debug, PartialEq, Eq)]
pub enum EvalControlFlow {
    /// The construct was evaluated to its end and gave a value.
    Continue(Value),
    /// A return was executed inside the construct, with this value.
    Return(Value),
}

impl EvalControlFlow {
    /// The value that the control flow carries, whichever variant it is.
    pub open spec fn value(self) -> Value {
        match self {
            EvalControlFlow::Continue(value) => value,
            EvalControlFlow::Return(value) => value,
        }
    }

    /// Consumes the evaluation control flow and returns its value.
    pub fn into_value(self) -> (value: Value)
        ensures
            value == self.value(),
    {
        match self {
            EvalControlFlow::Continue(value) | EvalControlFlow::Return(value) => value,
        }
    }

    /// Whether this evaluation control flow is a return.
    pub fn is_return(&self) -> (early: bool)
        ensures
            early == (*self is Return),
    {
        match self {
            EvalControlFlow::Continue(_) => false,
            EvalControlFlow::Return(_) => true,
        }
    }
}

} // verus!

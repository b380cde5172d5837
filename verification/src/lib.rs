//! Evaluation context of a partial evaluator for a hybrid quantum/classical
//! language: value classification, call scopes, block and scope stacks,
//! control-flow signals and output recording.

pub mod ids;
pub mod value;
pub mod hybrid;
pub mod env;
pub mod scope;
pub mod context;
pub mod control_flow;
pub mod output;

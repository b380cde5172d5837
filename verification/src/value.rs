//! Runtime values and their classification as static or dynamic.

use vstd::prelude::*;
use std::rc::Rc;
use crate::ids::{FunctorApp, StoreItemId};

verus! {

/// Whether something is known at compile time or only once the program runs.
#[derive(Clone, Copy, Debug, PartialEq, Eq, Structural)]
pub enum RuntimeKind {
    /// Fully known at compile time.
    Static,
    /// Depends on a measurement outcome that is not resolved yet.
    Dynamic,
}

/// The classification of a value.
#[derive(Clone, Copy, Debug, PartialEq, Eq, Structural)]
pub enum ValueKind {
    /// An array: the kind of its content, then the kind of its size.
    Array(RuntimeKind, RuntimeKind),
    /// Anything that is not an array.
    Element(RuntimeKind),
}

impl ValueKind {
    /// A kind is dynamic when any of its components is.
    pub open spec fn spec_is_dynamic(self) -> bool {
        match self {
            ValueKind::Array(content, size) => content == RuntimeKind::Dynamic || size
                == RuntimeKind::Dynamic,
            ValueKind::Element(kind) => kind == RuntimeKind::Dynamic,
        }
    }

    /// Whether any component of the kind is dynamic.
    #[verifier::when_used_as_spec(spec_is_dynamic)]
    pub fn is_dynamic(self) -> (dynamic: bool)
        ensures
            dynamic == self.spec_is_dynamic(),
    {
        match self {
            ValueKind::Array(content, size) => {
                let content_dynamic = match content {
                    RuntimeKind::Dynamic => true,
                    RuntimeKind::Static => false,
                };
                let size_dynamic = match size {
                    RuntimeKind::Dynamic => true,
                    RuntimeKind::Static => false,
                };
                content_dynamic || size_dynamic
            },
            ValueKind::Element(kind) => match kind {
                RuntimeKind::Dynamic => true,
                RuntimeKind::Static => false,
            },
        }
    }
}

/// A Pauli-basis constant.
#[derive(Clone, Copy, Debug, PartialEq, Eq, Structural)]
pub enum Pauli {
    I,
    X,
    Y,
    Z,
}

/// A range of integers; an open end is `None`.
#[derive(Clone, Copy, Debug, PartialEq, Eq)]
pub struct Range {
    pub start: Option<i64>,
    pub step: i64,
    pub end: Option<i64>,
}

/// The outcome of a measurement.
#[derive(Clone, Copy, Debug, PartialEq, Eq, Structural)]
pub enum MeasurementResult {
    /// An outcome that only the running program will know, by its identifier.
    Id(usize),
    /// A literal outcome (`true` for `One`).
    Val(bool),
}

/// A variable that stands for a value computed at runtime.
#[derive(Clone, Copy, Debug, PartialEq, Eq, Structural)]
pub struct Var(pub usize);

/// What evaluating an expression yields. A value is cheap to clone: its
/// elements are shared, not copied.
#[derive(Clone, Debug, PartialEq, Eq)]
pub enum Value {
    /// An array; all elements have one type. The elements are shared.
    Array(Rc<Vec<Value>>),
    /// An arbitrary-precision integer, as signed little-endian bytes.
    BigInt(Vec<u8>),
    Bool(bool),
    /// A callable with some arguments already bound.
    Closure(Rc<Vec<Value>>, StoreItemId, FunctorApp),
    /// A floating-point number, as the bits of its IEEE 754 binary64 form.
    Double(u64),
    /// A reference to a global callable.
    Global(StoreItemId, FunctorApp),
    Int(i64),
    Pauli(Pauli),
    /// A qubit handle.
    Qubit(usize),
    Range(Range),
    Result(MeasurementResult),
    String(String),
    Tuple(Rc<Vec<Value>>),
    Var(Var),
}

/// The runtime kind that stands for "some part is dynamic" or its absence.
pub open spec fn runtime_kind_of(dynamic: bool) -> RuntimeKind {
    if dynamic {
        RuntimeKind::Dynamic
    } else {
        RuntimeKind::Static
    }
}

/// Whether a value depends on something that only the running program knows:
/// it is a runtime measurement result or a runtime variable, or it is an array
/// or a tuple with such an element at any depth.
pub open spec fn is_dynamic_value(value: Value) -> bool
    decreases value,
{
    match value {
        Value::Array(elements) => exists|i: int|
            0 <= i < elements@.len() && is_dynamic_value(#[trigger] elements@[i]),
        Value::Tuple(elements) => exists|i: int|
            0 <= i < elements@.len() && is_dynamic_value(#[trigger] elements@[i]),
        Value::Result(MeasurementResult::Id(_)) => true,
        Value::Var(_) => true,
        _ => false,
    }
}

/// Whether some value of the sequence is dynamic.
pub open spec fn any_dynamic(values: Seq<Value>) -> bool {
    exists|i: int| 0 <= i < values.len() && is_dynamic_value(#[trigger] values[i])
}

/// The kind of a value: an array has a content kind and a size that is always
/// static; anything else is an element.
pub open spec fn classify(value: Value) -> ValueKind {
    match value {
        Value::Array(_) => ValueKind::Array(
            runtime_kind_of(is_dynamic_value(value)),
            RuntimeKind::Static,
        ),
        _ => ValueKind::Element(runtime_kind_of(is_dynamic_value(value))),
    }
}

/// An array or a tuple is dynamic exactly when one of its elements is.
pub proof fn lemma_container_is_dynamic(value: Value)
    ensures
        value matches Value::Array(elements) ==> is_dynamic_value(value) == any_dynamic(
            elements@,
        ),
        value matches Value::Tuple(elements) ==> is_dynamic_value(value) == any_dynamic(
            elements@,
        ),
{
}

/// A tuple is dynamic exactly when the kind of one of its elements is dynamic.
/// The content of an array is dynamic exactly when the kind of one of its
/// elements is, and the size of an array is always static.
pub proof fn lemma_classify_container(value: Value)
    ensures
        value matches Value::Tuple(elements) ==> classify(value) == ValueKind::Element(
            runtime_kind_of(
                exists|i: int|
                    0 <= i < elements@.len() && classify(#[trigger] elements@[i]).is_dynamic(),
            ),
        ),
        value matches Value::Array(elements) ==> classify(value) == ValueKind::Array(
            runtime_kind_of(
                exists|i: int|
                    0 <= i < elements@.len() && classify(#[trigger] elements@[i]).is_dynamic(),
            ),
            RuntimeKind::Static,
        ),
{
    lemma_container_is_dynamic(value);
    match value {
        Value::Tuple(elements) => {
            assert forall|i: int| 0 <= i < elements@.len() implies classify(
                #[trigger] elements@[i],
            ).is_dynamic() == is_dynamic_value(elements@[i]) by {
                lemma_classify_is_dynamic(elements@[i]);
            }
        },
        Value::Array(elements) => {
            assert forall|i: int| 0 <= i < elements@.len() implies classify(
                #[trigger] elements@[i],
            ).is_dynamic() == is_dynamic_value(elements@[i]) by {
                lemma_classify_is_dynamic(elements@[i]);
            }
        },
        _ => {},
    }
}

/// A tuple of two values is dynamic exactly when the first or the second is.
pub proof fn lemma_classify_pair(pair: Value, first: Value, second: Value)
    requires
        pair matches Value::Tuple(elements) && elements@ == seq![first, second],
    ensures
        classify(pair).is_dynamic() <==> classify(first).is_dynamic() || classify(
            second,
        ).is_dynamic(),
{
    lemma_classify_container(pair);
    match pair {
        Value::Tuple(elements) => {
            assert(elements@[0] == first);
            assert(elements@[1] == second);
        },
        _ => {},
    }
}

/// The kind of a value is dynamic exactly when the value is.
pub proof fn lemma_classify_is_dynamic(value: Value)
    ensures
        classify(value).is_dynamic() == is_dynamic_value(value),
{
}

/// Whether any of the values is dynamic.
fn any_element_is_dynamic(elements: &Vec<Value>) -> (dynamic: bool)
    ensures
        dynamic == any_dynamic(elements@),
    decreases elements,
{
    let mut i: usize = 0;
    while i < elements.len()
        invariant
            i <= elements.len(),
            forall|j: int| 0 <= j < i ==> !is_dynamic_value(#[trigger] elements@[j]),
        decreases elements.len() - i,
    {
        let element_value_kind = map_eval_value_to_value_kind(&elements[i]);
        if element_value_kind.is_dynamic() {
            assert(is_dynamic_value(elements@[i as int]));
            return true;
        }
        i += 1;
    }
    false
}

/// Classifies a value as static or dynamic.
pub fn map_eval_value_to_value_kind(value: &Value) -> (kind: ValueKind)
    ensures
        kind == classify(*value),
    decreases value,
{
    proof {
        lemma_container_is_dynamic(*value);
    }
    match value {
        Value::Array(elements) => {
            if any_element_is_dynamic(elements) {
                ValueKind::Array(RuntimeKind::Dynamic, RuntimeKind::Static)
            } else {
                ValueKind::Array(RuntimeKind::Static, RuntimeKind::Static)
            }
        },
        Value::Tuple(elements) => {
            if any_element_is_dynamic(elements) {
                ValueKind::Element(RuntimeKind::Dynamic)
            } else {
                ValueKind::Element(RuntimeKind::Static)
            }
        },
        Value::Result(MeasurementResult::Id(_)) | Value::Var(_) => ValueKind::Element(
            RuntimeKind::Dynamic,
        ),
        Value::BigInt(_)
        | Value::Bool(_)
        | Value::Closure(_, _, _)
        | Value::Double(_)
        | Value::Global(_, _)
        | Value::Int(_)
        | Value::Pauli(_)
        | Value::Qubit(_)
        | Value::Range(_)
        | Value::Result(MeasurementResult::Val(_))
        | Value::String(_) => ValueKind::Element(RuntimeKind::Static),
    }
}

} // verus!

//! Output recording: the instructions that hand a callable's final value to
//! whoever consumes the program's output.

use vstd::prelude::*;
use vstd::pervasive::unreached;
use crate::context::EvaluationContext;
use crate::ids::{BlockId, Span};
use crate::value::{MeasurementResult, Value};

verus! {

/// The shape of an output type.
#[derive(Debug, PartialEq, Eq)]
pub enum OutputType {
    Bool,
    Int,
    Double,
    Result,
    /// An array, with the type of its elements.
    Array(Box<OutputType>),
    /// A tuple, with the type of each element.
    Tuple(Vec<OutputType>),
}

/// The kind of a record for a scalar.
#[derive(Clone, Copy, Debug, PartialEq, Eq, Structural)]
pub enum ScalarKind {
    Bool,
    Int,
    Double,
    Result,
}

/// The value that a scalar record carries.
#[derive(Clone, Copy, Debug, PartialEq, Eq, Structural)]
pub enum Operand {
    /// A literal boolean.
    Bool(bool),
    /// A literal integer.
    Int(i64),
    /// A literal floating-point number, as the bits of its IEEE 754 binary64 form.
    Double(u64),
    /// A measurement result of the running program, by its identifier.
    Result(usize),
    /// A variable of the running program, by its identifier.
    Variable(usize),
}

/// One output recording instruction. Each also carries a location operand,
/// which is opaque and the same for all and so is not represented.
#[derive(Clone, Copy, Debug, PartialEq, Eq, Structural)]
pub enum OutputRecord {
    /// Announces an array of this many elements, which follow.
    Array(usize),
    /// Announces a tuple of this many elements, which follow.
    Tuple(usize),
    /// Records a scalar.
    Scalar(ScalarKind, Operand),
}

/// Why a program cannot be partially evaluated.
#[derive(Clone, Copy, Debug, PartialEq, Eq, Structural)]
pub enum Error {
    /// A literal measurement result was to be recorded as output. Carries the
    /// location in the source that the output came from.
    OutputResultLiteral(Span),
}

/// Whether a value has the shape of an output type: a scalar of the type, a
/// runtime variable of a boolean, integer or floating-point type, an array of
/// elements of the element type, or a tuple whose elements have the types of
/// the tuple type, one for one.
pub open spec fn has_shape(value: Value, ty: OutputType) -> bool
    decreases value,
{
    match value {
        Value::Bool(_) => ty is Bool,
        Value::Int(_) => ty is Int,
        Value::Double(_) => ty is Double,
        Value::Result(_) => ty is Result,
        Value::Var(_) => ty is Bool || ty is Int || ty is Double,
        Value::Array(elements) => match ty {
            OutputType::Array(element_ty) => forall|i: int|
                0 <= i < elements@.len() ==> has_shape(#[trigger] elements@[i], *element_ty),
            _ => false,
        },
        Value::Tuple(elements) => match ty {
            OutputType::Tuple(element_tys) => element_tys@.len() == elements@.len() && forall|
                i: int,
            |
                0 <= i < elements@.len() ==> has_shape(#[trigger] elements@[i], element_tys@[i]),
            _ => false,
        },
        _ => false,
    }
}

/// Whether a literal measurement result occurs in a value: as the value
/// itself, or in an array or a tuple at any depth.
pub open spec fn contains_result_literal(value: Value) -> bool
    decreases value,
{
    match value {
        Value::Result(MeasurementResult::Val(_)) => true,
        Value::Array(elements) => exists|i: int|
            0 <= i < elements@.len() && contains_result_literal(#[trigger] elements@[i]),
        Value::Tuple(elements) => exists|i: int|
            0 <= i < elements@.len() && contains_result_literal(#[trigger] elements@[i]),
        _ => false,
    }
}

/// The kind of record for a variable of a scalar type.
pub open spec fn scalar_kind(ty: OutputType) -> ScalarKind {
    match ty {
        OutputType::Bool => ScalarKind::Bool,
        OutputType::Int => ScalarKind::Int,
        OutputType::Double => ScalarKind::Double,
        _ => ScalarKind::Result,
    }
}

/// The records for a value of an output type: one record for a scalar; for an
/// array or a tuple the announcement of its length, then the records of its
/// elements, each in full before the next, from the first to the last.
pub open spec fn recorded(value: Value, ty: OutputType) -> Seq<OutputRecord>
    decreases value, 0nat,
{
    match value {
        Value::Bool(b) => seq![OutputRecord::Scalar(ScalarKind::Bool, Operand::Bool(b))],
        Value::Int(n) => seq![OutputRecord::Scalar(ScalarKind::Int, Operand::Int(n))],
        Value::Double(bits) => seq![
            OutputRecord::Scalar(ScalarKind::Double, Operand::Double(bits)),
        ],
        Value::Result(MeasurementResult::Id(id)) => seq![
            OutputRecord::Scalar(ScalarKind::Result, Operand::Result(id)),
        ],
        Value::Var(var) => seq![OutputRecord::Scalar(scalar_kind(ty), Operand::Variable(var.0))],
        Value::Array(elements) => match ty {
            OutputType::Array(element_ty) => seq![OutputRecord::Array(elements.len())]
                + recorded_array(elements@, *element_ty, elements@.len()),
            _ => Seq::empty(),
        },
        Value::Tuple(elements) => match ty {
            OutputType::Tuple(element_tys) => seq![OutputRecord::Tuple(elements.len())]
                + recorded_tuple(elements@, element_tys@, elements@.len()),
            _ => Seq::empty(),
        },
        _ => Seq::empty(),
    }
}

/// The records for the first `count` elements of an array.
pub open spec fn recorded_array(elements: Seq<Value>, ty: OutputType, count: nat) -> Seq<
    OutputRecord,
>
    decreases elements, count,
{
    if count == 0 || count > elements.len() {
        Seq::empty()
    } else {
        recorded_array(elements, ty, (count - 1) as nat) + recorded(elements[count - 1], ty)
    }
}

/// The records for the first `count` elements of a tuple.
pub open spec fn recorded_tuple(elements: Seq<Value>, tys: Seq<OutputType>, count: nat) -> Seq<
    OutputRecord,
>
    decreases elements, count,
{
    if count == 0 || count > elements.len() || count > tys.len() {
        Seq::empty()
    } else {
        recorded_tuple(elements, tys, (count - 1) as nat) + recorded(
            elements[count - 1],
            tys[count - 1],
        )
    }
}

/// Whether every element of an array has the shape of the element type.
fn elements_have_shape(elements: &Vec<Value>, element_ty: &OutputType) -> (ok: bool)
    ensures
        ok == forall|i: int|
            0 <= i < elements@.len() ==> has_shape(#[trigger] elements@[i], *element_ty),
    decreases elements,
{
    let mut i: usize = 0;
    while i < elements.len()
        invariant
            i <= elements.len(),
            forall|j: int| 0 <= j < i ==> has_shape(#[trigger] elements@[j], *element_ty),
        decreases elements.len() - i,
    {
        if !value_has_shape(&elements[i], element_ty) {
            return false;
        }
        i += 1;
    }
    true
}

/// Whether every element of a tuple has the shape of its type.
fn elements_have_shapes(elements: &Vec<Value>, element_tys: &Vec<OutputType>) -> (ok: bool)
    requires
        element_tys@.len() == elements@.len(),
    ensures
        ok == forall|i: int|
            0 <= i < elements@.len() ==> has_shape(#[trigger] elements@[i], element_tys@[i]),
    decreases elements,
{
    let mut i: usize = 0;
    while i < elements.len()
        invariant
            i <= elements.len(),
            element_tys@.len() == elements@.len(),
            forall|j: int| 0 <= j < i ==> has_shape(#[trigger] elements@[j], element_tys@[j]),
        decreases elements.len() - i,
    {
        if !value_has_shape(&elements[i], &element_tys[i]) {
            return false;
        }
        i += 1;
    }
    true
}

/// Determines whether a value has the shape of an output type.
pub fn value_has_shape(value: &Value, ty: &OutputType) -> (ok: bool)
    ensures
        ok == has_shape(*value, *ty),
    decreases value,
{
    match value {
        Value::Bool(_) => matches!(ty, OutputType::Bool),
        Value::Int(_) => matches!(ty, OutputType::Int),
        Value::Double(_) => matches!(ty, OutputType::Double),
        Value::Result(_) => matches!(ty, OutputType::Result),
        Value::Var(_) => matches!(ty, OutputType::Bool | OutputType::Int | OutputType::Double),
        Value::Array(elements) => match ty {
            OutputType::Array(element_ty) => elements_have_shape(elements, element_ty),
            _ => false,
        },
        Value::Tuple(elements) => match ty {
            OutputType::Tuple(element_tys) => element_tys.len() == elements.len()
                && elements_have_shapes(elements, element_tys),
            _ => false,
        },
        _ => false,
    }
}

/// Records the elements of an array after the announcement of its length.
fn record_array(
    instrs: &mut Vec<OutputRecord>,
    elements: &Vec<Value>,
    element_ty: &OutputType,
    span: Span,
) -> (result: Result<(), Error>)
    requires
        forall|i: int|
            0 <= i < elements@.len() ==> has_shape(#[trigger] elements@[i], *element_ty),
    ensures
        (exists|i: int|
            0 <= i < elements@.len() && contains_result_literal(#[trigger] elements@[i]))
            ==> result == Err::<(), Error>(Error::OutputResultLiteral(span)),
        !(exists|i: int|
            0 <= i < elements@.len() && contains_result_literal(#[trigger] elements@[i]))
            ==> result is Ok && final(instrs)@ == old(instrs)@ + seq![
            OutputRecord::Array(elements.len()),
        ] + recorded_array(elements@, *element_ty, elements@.len()),
    decreases elements,
{
    instrs.push(OutputRecord::Array(elements.len()));
    let mut i: usize = 0;
    while i < elements.len()
        invariant
            i <= elements.len(),
            forall|j: int|
                0 <= j < elements@.len() ==> has_shape(#[trigger] elements@[j], *element_ty),
            forall|j: int| 0 <= j < i ==> !contains_result_literal(#[trigger] elements@[j]),
            instrs@ == old(instrs)@ + seq![OutputRecord::Array(elements.len())] + recorded_array(
                elements@,
                *element_ty,
                i as nat,
            ),
        decreases elements.len() - i,
    {
        match generate_output_recording_instructions(&elements[i], element_ty, span) {
            Ok(mut element_instrs) => {
                instrs.append(&mut element_instrs);
            },
            Err(error) => {
                return Err(error);
            },
        }
        i += 1;
    }
    Ok(())
}

/// Records the elements of a tuple after the announcement of its length.
fn record_tuple(
    instrs: &mut Vec<OutputRecord>,
    elements: &Vec<Value>,
    element_tys: &Vec<OutputType>,
    span: Span,
) -> (result: Result<(), Error>)
    requires
        element_tys@.len() == elements@.len(),
        forall|i: int|
            0 <= i < elements@.len() ==> has_shape(#[trigger] elements@[i], element_tys@[i]),
    ensures
        (exists|i: int|
            0 <= i < elements@.len() && contains_result_literal(#[trigger] elements@[i]))
            ==> result == Err::<(), Error>(Error::OutputResultLiteral(span)),
        !(exists|i: int|
            0 <= i < elements@.len() && contains_result_literal(#[trigger] elements@[i]))
            ==> result is Ok && final(instrs)@ == old(instrs)@ + seq![
            OutputRecord::Tuple(elements.len()),
        ] + recorded_tuple(elements@, element_tys@, elements@.len()),
    decreases elements,
{
    instrs.push(OutputRecord::Tuple(elements.len()));
    let mut i: usize = 0;
    while i < elements.len()
        invariant
            i <= elements.len(),
            element_tys@.len() == elements@.len(),
            forall|j: int|
                0 <= j < elements@.len() ==> has_shape(#[trigger] elements@[j], element_tys@[j]),
            forall|j: int| 0 <= j < i ==> !contains_result_literal(#[trigger] elements@[j]),
            instrs@ == old(instrs)@ + seq![OutputRecord::Tuple(elements.len())] + recorded_tuple(
                elements@,
                element_tys@,
                i as nat,
            ),
        decreases elements.len() - i,
    {
        match generate_output_recording_instructions(&elements[i], &element_tys[i], span) {
            Ok(mut element_instrs) => {
                instrs.append(&mut element_instrs);
            },
            Err(error) => {
                return Err(error);
            },
        }
        i += 1;
    }
    Ok(())
}

/// Records a runtime variable of a scalar type.
fn record_variable(instrs: &mut Vec<OutputRecord>, ty: &OutputType, var: usize)
    requires
        ty is Bool || ty is Int || ty is Double,
    ensures
        final(instrs)@ == old(instrs)@.push(
            OutputRecord::Scalar(scalar_kind(*ty), Operand::Variable(var)),
        ),
{
    let kind = match ty {
        OutputType::Bool => ScalarKind::Bool,
        OutputType::Int => ScalarKind::Int,
        OutputType::Double => ScalarKind::Double,
        _ => unreached(),
    };
    instrs.push(OutputRecord::Scalar(kind, Operand::Variable(var)));
}

/// Generates the output recording instructions for the final value of a
/// callable, given the shape of its output type. Fails when a literal
/// measurement result occurs anywhere in the value; `span` is the location that
/// the error then carries.
pub fn generate_output_recording_instructions(value: &Value, ty: &OutputType, span: Span) -> (result:
    Result<Vec<OutputRecord>, Error>)
    requires
        has_shape(*value, *ty),
    ensures
        contains_result_literal(*value) ==> result == Err::<Vec<OutputRecord>, Error>(
            Error::OutputResultLiteral(span),
        ),
        !contains_result_literal(*value) ==> result is Ok && result.unwrap()@ == recorded(
            *value,
            *ty,
        ),
    decreases value,
{
    let mut instrs: Vec<OutputRecord> = Vec::new();
    match value {
        Value::Result(MeasurementResult::Val(_)) => {
            return Err(Error::OutputResultLiteral(span));
        },
        Value::Array(elements) => match ty {
            OutputType::Array(element_ty) => {
                match record_array(&mut instrs, elements, element_ty, span) {
                    Ok(()) => {},
                    Err(error) => {
                        return Err(error);
                    },
                }
            },
            _ => unreached(),
        },
        Value::Tuple(elements) => match ty {
            OutputType::Tuple(element_tys) => {
                match record_tuple(&mut instrs, elements, element_tys, span) {
                    Ok(()) => {},
                    Err(error) => {
                        return Err(error);
                    },
                }
            },
            _ => unreached(),
        },
        Value::Result(MeasurementResult::Id(id)) => {
            instrs.push(OutputRecord::Scalar(ScalarKind::Result, Operand::Result(*id)));
        },
        Value::Var(var) => {
            record_variable(&mut instrs, ty, var.0);
        },
        Value::Bool(b) => {
            instrs.push(OutputRecord::Scalar(ScalarKind::Bool, Operand::Bool(*b)));
        },
        Value::Int(n) => {
            instrs.push(OutputRecord::Scalar(ScalarKind::Int, Operand::Int(*n)));
        },
        Value::Double(bits) => {
            instrs.push(OutputRecord::Scalar(ScalarKind::Double, Operand::Double(*bits)));
        },
        Value::BigInt(_)
        | Value::Closure(_, _, _)
        | Value::Global(_, _)
        | Value::Pauli(_)
        | Value::Qubit(_)
        | Value::Range(_)
        | Value::String(_) => unreached(),
    }
    assert(instrs@ =~= recorded(*value, *ty));
    Ok(instrs)
}

/// Records the final value of a callable: gives the block that the context is
/// currently adding instructions to, and the output recording instructions to
/// add to it. Fails, with nothing to add, when a literal measurement result
/// occurs anywhere in the value.
pub fn record_output(
    context: &EvaluationContext,
    value: &Value,
    ty: &OutputType,
    span: Span,
) -> (result: Result<(BlockId, Vec<OutputRecord>), Error>)
    requires
        context@.active_blocks.len() > 0,
        has_shape(*value, *ty),
    ensures
        contains_result_literal(*value) ==> result == Err::<(BlockId, Vec<OutputRecord>), Error>(
            Error::OutputResultLiteral(span),
        ),
        !contains_result_literal(*value) ==> result is Ok && result.unwrap().0
            == context@.active_blocks.last().id && result.unwrap().1@ == recorded(*value, *ty),
{
    match generate_output_recording_instructions(value, ty, span) {
        Ok(instrs) => Ok((context.get_current_block_id(), instrs)),
        Err(error) => Err(error),
    }
}

} // verus!

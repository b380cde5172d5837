use std::rc::Rc;
use partial_eval::ids::{FunctorApp, LocalItemId, PackageId, StoreItemId};
use partial_eval::value::{
    map_eval_value_to_value_kind, MeasurementResult, Pauli, Range, RuntimeKind, Value, ValueKind,
    Var,
};

fn tuple(elements: Vec<Value>) -> Value {
    Value::Tuple(Rc::new(elements))
}

fn array(elements: Vec<Value>) -> Value {
    Value::Array(Rc::new(elements))
}

const STATIC: ValueKind = ValueKind::Element(RuntimeKind::Static);
const DYNAMIC: ValueKind = ValueKind::Element(RuntimeKind::Dynamic);

fn callable() -> StoreItemId {
    StoreItemId {
        package: PackageId(1),
        item: LocalItemId(2),
    }
}

fn functor() -> FunctorApp {
    FunctorApp {
        adjoint: false,
        controlled: 0,
    }
}

#[test]
fn scalars_are_static() {
    assert_eq!(map_eval_value_to_value_kind(&Value::Bool(true)), STATIC);
    assert_eq!(map_eval_value_to_value_kind(&Value::Int(42)), STATIC);
    assert_eq!(map_eval_value_to_value_kind(&Value::BigInt(vec![1, 2])), STATIC);
    assert_eq!(map_eval_value_to_value_kind(&Value::Double(0)), STATIC);
    assert_eq!(map_eval_value_to_value_kind(&Value::Pauli(Pauli::X)), STATIC);
    assert_eq!(map_eval_value_to_value_kind(&Value::Qubit(3)), STATIC);
    assert_eq!(
        map_eval_value_to_value_kind(&Value::Range(Range {
            start: Some(0),
            step: 1,
            end: None
        })),
        STATIC
    );
    assert_eq!(
        map_eval_value_to_value_kind(&Value::String(String::from("text"))),
        STATIC
    );
    assert_eq!(
        map_eval_value_to_value_kind(&Value::Global(callable(), functor())),
        STATIC
    );
}

#[test]
fn literal_results_are_static() {
    assert_eq!(
        map_eval_value_to_value_kind(&Value::Result(MeasurementResult::Val(true))),
        STATIC
    );
    assert_eq!(
        map_eval_value_to_value_kind(&Value::Result(MeasurementResult::Val(false))),
        STATIC
    );
}

#[test]
fn runtime_results_and_variables_are_dynamic() {
    assert_eq!(
        map_eval_value_to_value_kind(&Value::Result(MeasurementResult::Id(0))),
        DYNAMIC
    );
    assert_eq!(map_eval_value_to_value_kind(&Value::Var(Var(7))), DYNAMIC);
}

#[test]
fn closure_is_static_whatever_it_binds() {
    let closure = Value::Closure(Rc::new(vec![Value::Var(Var(0))]), callable(), functor());
    assert_eq!(map_eval_value_to_value_kind(&closure), STATIC);
}

#[test]
fn tuple_is_dynamic_iff_an_element_is() {
    let both_static = tuple(vec![Value::Int(1), Value::Bool(false)]);
    assert_eq!(map_eval_value_to_value_kind(&both_static), STATIC);
    let first_dynamic = tuple(vec![Value::Var(Var(0)), Value::Bool(false)]);
    assert_eq!(map_eval_value_to_value_kind(&first_dynamic), DYNAMIC);
    let second_dynamic = tuple(vec![
        Value::Int(1),
        Value::Result(MeasurementResult::Id(3)),
    ]);
    assert_eq!(map_eval_value_to_value_kind(&second_dynamic), DYNAMIC);
    assert_eq!(map_eval_value_to_value_kind(&tuple(vec![])), STATIC);
}

#[test]
fn array_content_is_dynamic_iff_an_element_is_and_size_is_static() {
    let all_static = array(vec![Value::Int(1), Value::Int(2)]);
    assert_eq!(
        map_eval_value_to_value_kind(&all_static),
        ValueKind::Array(RuntimeKind::Static, RuntimeKind::Static)
    );
    let last_dynamic = array(vec![Value::Int(1), Value::Var(Var(2))]);
    assert_eq!(
        map_eval_value_to_value_kind(&last_dynamic),
        ValueKind::Array(RuntimeKind::Dynamic, RuntimeKind::Static)
    );
    assert_eq!(
        map_eval_value_to_value_kind(&array(vec![])),
        ValueKind::Array(RuntimeKind::Static, RuntimeKind::Static)
    );
}

#[test]
fn nesting_carries_dynamism_upwards() {
    let nested = tuple(vec![
        Value::Int(0),
        array(vec![tuple(vec![Value::Result(MeasurementResult::Id(1))])]),
    ]);
    assert_eq!(map_eval_value_to_value_kind(&nested), DYNAMIC);
    let nested_static = array(vec![tuple(vec![Value::Result(
        MeasurementResult::Val(true),
    )])]);
    assert_eq!(
        map_eval_value_to_value_kind(&nested_static),
        ValueKind::Array(RuntimeKind::Static, RuntimeKind::Static)
    );
}

#[test]
fn value_kind_is_dynamic() {
    assert!(DYNAMIC.is_dynamic());
    assert!(!STATIC.is_dynamic());
    assert!(ValueKind::Array(RuntimeKind::Dynamic, RuntimeKind::Static).is_dynamic());
    assert!(ValueKind::Array(RuntimeKind::Static, RuntimeKind::Dynamic).is_dynamic());
    assert!(!ValueKind::Array(RuntimeKind::Static, RuntimeKind::Static).is_dynamic());
}

#[test]
fn clone_shares_the_elements_and_is_equal() {
    let elements = Rc::new(vec![Value::Int(1), Value::Var(Var(2))]);
    let value = Value::Tuple(Rc::clone(&elements));
    let copy = value.clone();
    assert_eq!(copy, value);
    assert_eq!(
        map_eval_value_to_value_kind(&copy),
        map_eval_value_to_value_kind(&value)
    );
    match copy {
        Value::Tuple(shared) => assert!(Rc::ptr_eq(&shared, &elements)),
        _ => panic!("a clone of a tuple is a tuple"),
    }
}

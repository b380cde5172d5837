use std::rc::Rc;
use partial_eval::env::{Env, Variable};
use partial_eval::ids::{FunctorApp, LocalItemId, LocalVarId, PackageId, Span};
use partial_eval::scope::{Arg, Scope};
use partial_eval::value::{MeasurementResult, RuntimeKind, Value, ValueKind, Var};

fn tuple(elements: Vec<Value>) -> Value {
    Value::Tuple(Rc::new(elements))
}

fn array(elements: Vec<Value>) -> Value {
    Value::Array(Rc::new(elements))
}

fn variable(name: &str, value: Value) -> Variable {
    Variable {
        name: String::from(name),
        value,
        span: Span { lo: 0, hi: 1 },
    }
}

#[test]
fn scope_with_static_args_has_no_hybrid_vars() {
    let args = vec![
        Arg::Var(LocalVarId(0), variable("a", Value::Int(1))),
        Arg::Discard(Value::Bool(true)),
        Arg::Var(LocalVarId(2), variable("b", tuple(vec![Value::Int(2)]))),
    ];
    let scope = Scope::new(PackageId(3), None, args);
    assert_eq!(scope.package_id, PackageId(3));
    assert_eq!(scope.callable, None);
    assert_eq!(
        scope.args_value_kind,
        vec![
            ValueKind::Element(RuntimeKind::Static),
            ValueKind::Element(RuntimeKind::Static),
            ValueKind::Element(RuntimeKind::Static),
        ]
    );
    assert!(scope.find_local_var_value(LocalVarId(0)).is_none());
    assert!(scope.find_local_var_value(LocalVarId(1)).is_none());
    assert!(scope.find_local_var_value(LocalVarId(2)).is_none());
    assert_eq!(
        scope.env.get(LocalVarId(0)),
        Some(&variable("a", Value::Int(1)))
    );
    assert_eq!(
        scope.env.get(LocalVarId(2)),
        Some(&variable("b", tuple(vec![Value::Int(2)])))
    );
    assert_eq!(scope.env.get(LocalVarId(1)), None);
}

#[test]
fn scope_keeps_dynamic_args_as_hybrid_vars() {
    let args = vec![
        Arg::Var(LocalVarId(0), variable("a", Value::Int(1))),
        Arg::Var(
            LocalVarId(1),
            variable("r", Value::Result(MeasurementResult::Id(4))),
        ),
        Arg::Discard(Value::Var(Var(9))),
        Arg::Var(
            LocalVarId(5),
            variable("xs", array(vec![Value::Var(Var(2))])),
        ),
    ];
    let callable = Some((
        LocalItemId(8),
        FunctorApp {
            adjoint: true,
            controlled: 2,
        },
    ));
    let scope = Scope::new(PackageId(0), callable, args);
    assert_eq!(scope.callable, callable);
    assert_eq!(
        scope.args_value_kind,
        vec![
            ValueKind::Element(RuntimeKind::Static),
            ValueKind::Element(RuntimeKind::Dynamic),
            ValueKind::Element(RuntimeKind::Dynamic),
            ValueKind::Array(RuntimeKind::Dynamic, RuntimeKind::Static),
        ]
    );
    assert_eq!(
        scope.get_local_var_value(LocalVarId(1)),
        &Value::Result(MeasurementResult::Id(4))
    );
    assert_eq!(
        scope.get_local_var_value(LocalVarId(5)),
        &array(vec![Value::Var(Var(2))])
    );
    assert_eq!(scope.env.get(LocalVarId(1)), None);
    assert_eq!(scope.env.get(LocalVarId(5)), None);
    assert!(scope.find_local_var_value(LocalVarId(0)).is_none());
    assert_eq!(
        scope.env.get(LocalVarId(0)),
        Some(&variable("a", Value::Int(1)))
    );
}

#[test]
fn later_argument_of_one_name_wins() {
    let args = vec![
        Arg::Var(LocalVarId(1), variable("x", Value::Var(Var(1)))),
        Arg::Var(LocalVarId(1), variable("x", Value::Var(Var(2)))),
        Arg::Var(LocalVarId(3), variable("y", Value::Int(1))),
        Arg::Var(LocalVarId(3), variable("y", Value::Int(2))),
    ];
    let scope = Scope::new(PackageId(0), None, args);
    assert_eq!(scope.get_local_var_value(LocalVarId(1)), &Value::Var(Var(2)));
    assert_eq!(
        scope.env.get(LocalVarId(3)),
        Some(&variable("y", Value::Int(2)))
    );
}

#[test]
fn one_name_static_and_dynamic_is_held_twice() {
    let args = vec![
        Arg::Var(LocalVarId(1), variable("x", Value::Int(1))),
        Arg::Var(LocalVarId(1), variable("x", Value::Var(Var(2)))),
    ];
    let scope = Scope::new(PackageId(0), None, args);
    assert_eq!(scope.get_local_var_value(LocalVarId(1)), &Value::Var(Var(2)));
    assert_eq!(
        scope.env.get(LocalVarId(1)),
        Some(&variable("x", Value::Int(1)))
    );
}

#[test]
fn inserted_local_var_value_is_read_back() {
    let mut scope = Scope::new(PackageId(0), None, vec![]);
    assert!(scope.find_local_var_value(LocalVarId(4)).is_none());
    scope.insert_local_var_value(LocalVarId(4), Value::Var(Var(0)));
    assert_eq!(scope.get_local_var_value(LocalVarId(4)), &Value::Var(Var(0)));
    assert_eq!(
        partial_eval::value::map_eval_value_to_value_kind(
            scope.get_local_var_value(LocalVarId(4))
        ),
        ValueKind::Element(RuntimeKind::Dynamic)
    );
    scope.insert_local_var_value(LocalVarId(4), Value::Var(Var(1)));
    assert_eq!(scope.get_local_var_value(LocalVarId(4)), &Value::Var(Var(1)));
    scope.insert_local_var_value(LocalVarId(6), Value::Result(MeasurementResult::Id(2)));
    assert_eq!(scope.get_local_var_value(LocalVarId(4)), &Value::Var(Var(1)));
    assert_eq!(
        scope.find_local_var_value(LocalVarId(6)),
        Some(&Value::Result(MeasurementResult::Id(2)))
    );
    assert!(scope.find_local_var_value(LocalVarId(5)).is_none());
}

#[test]
fn classical_evaluator_return_is_seen_in_the_depth() {
    let mut scope = Scope::new(PackageId(0), None, vec![]);
    assert_eq!(scope.env.len(), 2);
    assert!(!scope.has_classical_evaluator_returned());
    scope.env.push_scope(1);
    assert!(!scope.has_classical_evaluator_returned());
    scope.env.leave_scope();
    assert!(!scope.has_classical_evaluator_returned());
    scope.env.leave_scope();
    assert!(scope.has_classical_evaluator_returned());
}

#[test]
fn new_scope_is_not_in_a_branch() {
    let scope = Scope::new(PackageId(0), None, vec![]);
    assert!(!scope.is_currently_evaluating_branch());
}

#[test]
fn arg_into_value() {
    assert_eq!(Arg::Discard(Value::Int(5)).into_value(), Value::Int(5));
    assert_eq!(
        Arg::Var(LocalVarId(1), variable("v", Value::Bool(true))).into_value(),
        Value::Bool(true)
    );
}

#[test]
fn env_default_has_one_frame() {
    let env = Env::default();
    assert_eq!(env.len(), 1);
    assert_eq!(env.get(LocalVarId(0)), None);
}

#[test]
fn env_binds_in_top_frame_and_hides_earlier_bindings() {
    let mut env = Env::default();
    env.bind_variable_in_top_frame(LocalVarId(1), variable("a", Value::Int(1)));
    assert_eq!(env.get(LocalVarId(1)), Some(&variable("a", Value::Int(1))));
    env.push_scope(0);
    assert_eq!(env.len(), 2);
    assert_eq!(env.get(LocalVarId(1)), Some(&variable("a", Value::Int(1))));
    env.bind_variable_in_top_frame(LocalVarId(1), variable("a", Value::Int(2)));
    assert_eq!(env.get(LocalVarId(1)), Some(&variable("a", Value::Int(2))));
    env.bind_variable_in_top_frame(LocalVarId(1), variable("a", Value::Int(3)));
    assert_eq!(env.get(LocalVarId(1)), Some(&variable("a", Value::Int(3))));
    env.leave_scope();
    assert_eq!(env.get(LocalVarId(1)), Some(&variable("a", Value::Int(1))));
}

#[test]
fn env_lookup_stops_at_another_call_frame() {
    let mut env = Env::default();
    env.bind_variable_in_top_frame(LocalVarId(1), variable("a", Value::Int(1)));
    env.push_scope(7);
    assert_eq!(env.get(LocalVarId(1)), None);
    env.bind_variable_in_top_frame(LocalVarId(2), variable("b", Value::Int(2)));
    env.push_scope(7);
    assert_eq!(env.get(LocalVarId(2)), Some(&variable("b", Value::Int(2))));
    assert_eq!(env.get(LocalVarId(1)), None);
}

#[test]
fn scope_accessors_give_the_parts() {
    let args = vec![
        Arg::Var(LocalVarId(0), variable("a", Value::Int(1))),
        Arg::Discard(Value::Var(Var(1))),
    ];
    let callable = Some((
        LocalItemId(4),
        FunctorApp {
            adjoint: false,
            controlled: 1,
        },
    ));
    let mut scope = Scope::new(PackageId(9), callable, args);
    assert_eq!(scope.package_id(), PackageId(9));
    assert_eq!(scope.callable(), callable);
    assert_eq!(
        scope.args_value_kind(),
        &vec![
            ValueKind::Element(RuntimeKind::Static),
            ValueKind::Element(RuntimeKind::Dynamic),
        ]
    );
    assert_eq!(scope.env().len(), 2);
    assert_eq!(scope.active_block_count(), 1);
    scope.env_mut().leave_scope();
    assert_eq!(scope.env().len(), 1);
    assert!(scope.has_classical_evaluator_returned());
    assert_eq!(scope.env().get(LocalVarId(0)), None);
}

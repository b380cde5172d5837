//! Call scopes: the state of one callable invocation.

use vstd::prelude::*;
use crate::env::{lookup, lookup_from, Env, FrameView, Variable};
use rustc_hash::FxHashMap;
use crate::hybrid::{new_table, table_get, table_insert};
use crate::ids::{FunctorApp, LocalItemId, LocalVarId, PackageId};
use crate::value::{classify, is_dynamic_value, map_eval_value_to_value_kind, Value, ValueKind};

verus! {

/// The call frame that the classical evaluator runs a callable in.
pub const CLASSICAL_EVALUATOR_CALL_SCOPE_ID: usize = 1;

/// A call argument.
#[derive(Clone, Debug, PartialEq, Eq)]
pub enum Arg {
    /// An argument that is bound to no name.
    Discard(Value),
    /// An argument that is bound to a local variable.
    Var(LocalVarId, Variable),
}

impl Arg {
    /// The value that the argument carries.
    pub open spec fn value(self) -> Value {
        match self {
            Arg::Discard(value) => value,
            Arg::Var(_, var) => var.value,
        }
    }

    /// Converts the argument into its underlying value.
    pub fn into_value(self) -> (value: Value)
        ensures
            value == self.value(),
    {
        match self {
            Arg::Discard(value) => value,
            Arg::Var(_, var) => var.value,
        }
    }
}

/// The kinds of the arguments, in their order.
pub open spec fn kinds_of(args: Seq<Arg>) -> Seq<ValueKind> {
    Seq::new(args.len(), |i: int| classify(args[i].value()))
}

/// The hybrid variables that the arguments give rise to: each named argument
/// with a dynamic value, by the number of its variable. Of two such arguments
/// with one name the later one stays.
pub open spec fn dynamic_bindings(args: Seq<Arg>) -> Map<u32, Value>
    decreases args.len(),
{
    if args.len() == 0 {
        Map::empty()
    } else {
        let rest = dynamic_bindings(args.drop_last());
        match args.last() {
            Arg::Var(id, var) => if is_dynamic_value(var.value) {
                rest.insert(id.0, var.value)
            } else {
                rest
            },
            Arg::Discard(_) => rest,
        }
    }
}

/// The classical bindings that the arguments give rise to: each named argument
/// with a static value, by the number of its variable. Of two such arguments
/// with one name the later one stays.
pub open spec fn static_bindings(args: Seq<Arg>) -> Map<u32, Variable>
    decreases args.len(),
{
    if args.len() == 0 {
        Map::empty()
    } else {
        let rest = static_bindings(args.drop_last());
        match args.last() {
            Arg::Var(id, var) => if is_dynamic_value(var.value) {
                rest
            } else {
                rest.insert(id.0, var)
            },
            Arg::Discard(_) => rest,
        }
    }
}

/// The classical environment of a scope that was entered with these arguments:
/// the frame that every environment starts with, and on it the frame of the
/// call with the static arguments.
pub open spec fn initial_env(args: Seq<Arg>) -> Seq<FrameView> {
    seq![
        (FrameView { frame_id: 0, bindings: Map::empty() }),
        (FrameView { frame_id: CLASSICAL_EVALUATOR_CALL_SCOPE_ID, bindings: static_bindings(args) }),
    ]
}

/// Whether an argument makes `key` a hybrid variable.
pub open spec fn binds_dynamic(arg: Arg, key: u32) -> bool {
    arg matches Arg::Var(id, var) && id.0 == key && is_dynamic_value(var.value)
}

/// Whether an argument binds `key` in the classical environment.
pub open spec fn binds_static(arg: Arg, key: u32) -> bool {
    arg matches Arg::Var(id, var) && id.0 == key && !is_dynamic_value(var.value)
}

/// A variable that no argument makes a hybrid variable is none.
pub proof fn lemma_dynamic_binding_absent(args: Seq<Arg>, key: u32)
    requires
        forall|i: int| 0 <= i < args.len() ==> !binds_dynamic(#[trigger] args[i], key),
    ensures
        !dynamic_bindings(args).contains_key(key),
    decreases args.len(),
{
    if args.len() > 0 {
        let rest = args.drop_last();
        assert forall|i: int| 0 <= i < rest.len() implies !binds_dynamic(
            #[trigger] rest[i],
            key,
        ) by {
            assert(rest[i] == args[i]);
        }
        lemma_dynamic_binding_absent(rest, key);
        assert(!binds_dynamic(args[args.len() - 1], key));
    }
}

/// The hybrid variable of a key has the value of the last argument that binds it.
pub proof fn lemma_dynamic_binding_value(args: Seq<Arg>, i: int, key: u32)
    requires
        0 <= i < args.len(),
        binds_dynamic(args[i], key),
        forall|j: int| i < j < args.len() ==> !binds_dynamic(#[trigger] args[j], key),
    ensures
        dynamic_bindings(args).contains_key(key),
        dynamic_bindings(args)[key] == args[i].value(),
    decreases args.len(),
{
    let rest = args.drop_last();
    if i < args.len() - 1 {
        assert(rest[i] == args[i]);
        assert forall|j: int| i < j < rest.len() implies !binds_dynamic(
            #[trigger] rest[j],
            key,
        ) by {
            assert(rest[j] == args[j]);
        }
        lemma_dynamic_binding_value(rest, i, key);
        assert(!binds_dynamic(args[args.len() - 1], key));
    }
}

/// A variable that no argument binds statically is not among the classical bindings.
pub proof fn lemma_static_binding_absent(args: Seq<Arg>, key: u32)
    requires
        forall|i: int| 0 <= i < args.len() ==> !binds_static(#[trigger] args[i], key),
    ensures
        !static_bindings(args).contains_key(key),
    decreases args.len(),
{
    if args.len() > 0 {
        let rest = args.drop_last();
        assert forall|i: int| 0 <= i < rest.len() implies !binds_static(
            #[trigger] rest[i],
            key,
        ) by {
            assert(rest[i] == args[i]);
        }
        lemma_static_binding_absent(rest, key);
        assert(!binds_static(args[args.len() - 1], key));
    }
}

/// The classical binding of a key is the variable of the last argument that
/// binds it statically.
pub proof fn lemma_static_binding_value(args: Seq<Arg>, i: int, key: u32)
    requires
        0 <= i < args.len(),
        binds_static(args[i], key),
        forall|j: int| i < j < args.len() ==> !binds_static(#[trigger] args[j], key),
    ensures
        static_bindings(args).contains_key(key),
        args[i] matches Arg::Var(_, var) && static_bindings(args)[key] == var,
    decreases args.len(),
{
    let rest = args.drop_last();
    if i < args.len() - 1 {
        assert(rest[i] == args[i]);
        assert forall|j: int| i < j < rest.len() implies !binds_static(
            #[trigger] rest[j],
            key,
        ) by {
            assert(rest[j] == args[j]);
        }
        lemma_static_binding_value(rest, i, key);
        assert(!binds_static(args[args.len() - 1], key));
    }
}

/// What the classical environment of a new scope gives for a variable is its
/// classical binding among the arguments.
pub proof fn lemma_initial_env_lookup(args: Seq<Arg>, key: u32)
    ensures
        lookup(initial_env(args), key) == if static_bindings(args).contains_key(key) {
            Some(static_bindings(args)[key])
        } else {
            None
        },
{
    let frames = initial_env(args);
    assert(frames.len() == 2);
    assert(frames.last() == frames[1]);
    assert(lookup_from(frames, 1, CLASSICAL_EVALUATOR_CALL_SCOPE_ID, key).is_none());
}

/// With arguments that are all static, a scope starts without hybrid
/// variables, and every named argument can be looked up in the classical
/// environment.
pub proof fn lemma_all_static_args(args: Seq<Arg>)
    requires
        forall|i: int| 0 <= i < args.len() ==> !is_dynamic_value((#[trigger] args[i]).value()),
    ensures
        dynamic_bindings(args) == Map::<u32, Value>::empty(),
        forall|i: int|
            0 <= i < args.len() ==> (#[trigger] args[i] matches Arg::Var(id, _) ==> lookup(
                initial_env(args),
                id.0,
            ).is_some()),
{
    assert forall|key: u32| !dynamic_bindings(args).contains_key(key) by {
        lemma_dynamic_binding_absent(args, key);
    }
    assert(dynamic_bindings(args) =~= Map::<u32, Value>::empty());
    assert forall|i: int| 0 <= i < args.len() implies (#[trigger] args[i] matches Arg::Var(
        id,
        _,
    ) ==> lookup(initial_env(args), id.0).is_some()) by {
        if let Arg::Var(id, _) = args[i] {
            lemma_initial_env_lookup(args, id.0);
            if !static_bindings(args).contains_key(id.0) {
                lemma_static_binding_present(args, i, id.0);
            }
        }
    }
}

/// A variable that some argument binds statically is among the classical bindings.
pub proof fn lemma_static_binding_present(args: Seq<Arg>, i: int, key: u32)
    requires
        0 <= i < args.len(),
        binds_static(args[i], key),
    ensures
        static_bindings(args).contains_key(key),
    decreases args.len(),
{
    let rest = args.drop_last();
    if i < args.len() - 1 {
        assert(rest[i] == args[i]);
        lemma_static_binding_present(rest, i, key);
    }
}

/// A static named argument is what the classical environment of the new scope
/// gives for its variable, unless a later static argument has the same name.
pub proof fn lemma_static_arg_in_env(args: Seq<Arg>, i: int, key: u32)
    requires
        0 <= i < args.len(),
        binds_static(args[i], key),
        forall|j: int| i < j < args.len() ==> !binds_static(#[trigger] args[j], key),
    ensures
        args[i] matches Arg::Var(_, var) && lookup(initial_env(args), key) == Some(var),
{
    lemma_static_binding_value(args, i, key);
    lemma_initial_env_lookup(args, key);
}

/// A dynamic named argument is a hybrid variable of the new scope, with the
/// argument's value unless a later dynamic argument has the same name. The
/// classical environment does not hold it, unless a static argument has the
/// same name.
pub proof fn lemma_dynamic_arg_is_hybrid(args: Seq<Arg>, i: int, key: u32)
    requires
        0 <= i < args.len(),
        binds_dynamic(args[i], key),
    ensures
        dynamic_bindings(args).contains_key(key),
        (forall|j: int| i < j < args.len() ==> !binds_dynamic(#[trigger] args[j], key))
            ==> dynamic_bindings(args)[key] == args[i].value(),
        (forall|j: int| 0 <= j < args.len() ==> !binds_static(#[trigger] args[j], key)) ==> lookup(
            initial_env(args),
            key,
        ).is_none(),
    decreases args.len(),
{
    if forall|j: int| i < j < args.len() ==> !binds_dynamic(#[trigger] args[j], key) {
        lemma_dynamic_binding_value(args, i, key);
    }
    if forall|j: int| 0 <= j < args.len() ==> !binds_static(#[trigger] args[j], key) {
        lemma_static_binding_absent(args, key);
        lemma_initial_env_lookup(args, key);
    }
    let rest = args.drop_last();
    if i < args.len() - 1 {
        assert(rest[i] == args[i]);
        lemma_dynamic_arg_is_hybrid(rest, i, key);
    }
}

/// Every hybrid variable of a new scope holds a dynamic value, and every
/// classical binding a static one.
pub proof fn lemma_bindings_kinds(args: Seq<Arg>)
    ensures
        forall|key: u32| #[trigger]
            dynamic_bindings(args).contains_key(key) ==> classify(
                dynamic_bindings(args)[key],
            ).is_dynamic(),
        forall|key: u32| #[trigger]
            static_bindings(args).contains_key(key) ==> !classify(
                static_bindings(args)[key].value,
            ).is_dynamic(),
    decreases args.len(),
{
    if args.len() > 0 {
        lemma_bindings_kinds(args.drop_last());
    }
}

/// A call scope.
pub struct Scope {
    /// The package ID of the callable.
    pub package_id: PackageId,
    /// The ID and functor information of the callable.
    pub callable: Option<(LocalItemId, FunctorApp)>,
    /// The kinds of the arguments passed to the callable.
    pub args_value_kind: Vec<ValueKind>,
    /// The classical environment of the callable, which holds the static local variables.
    pub env: Env,
    /// Number of currently active blocks (starting from where this scope was created).
    active_block_count: usize,
    /// The values of the dynamic local variables.
    hybrid_vars: FxHashMap<u32, Value>,
}

/// What a scope holds.
pub struct ScopeView {
    pub package_id: PackageId,
    pub callable: Option<(LocalItemId, FunctorApp)>,
    /// The kinds of the arguments.
    pub args_value_kind: Seq<ValueKind>,
    /// The frames of the classical environment, the outermost first.
    pub env: Seq<FrameView>,
    /// The number of blocks that are open in this scope, its own included.
    pub active_block_count: usize,
    /// The hybrid variables, by the number of the local variable.
    pub hybrid_vars: Map<u32, Value>,
}

impl ScopeView {
    /// The same scope with a local variable bound to a value among the hybrid
    /// variables.
    pub open spec fn with_local_var_value(self, key: u32, value: Value) -> ScopeView {
        ScopeView { hybrid_vars: self.hybrid_vars.insert(key, value), ..self }
    }

    /// A value that was bound to a local variable is what the variable holds
    /// afterwards, so the variable is of the value's kind: dynamic, if the
    /// value was. The other hybrid variables hold what they held.
    pub proof fn lemma_local_var_value_kept(self, key: u32, value: Value)
        ensures
            self.with_local_var_value(key, value).hybrid_vars.contains_key(key),
            self.with_local_var_value(key, value).hybrid_vars[key] == value,
            classify(self.with_local_var_value(key, value).hybrid_vars[key]) == classify(value),
            forall|other: u32|
                other != key && self.hybrid_vars.contains_key(other) ==> #[trigger] self.with_local_var_value(
                    key,
                    value,
                ).hybrid_vars.contains_key(other) && self.with_local_var_value(
                    key,
                    value,
                ).hybrid_vars[other] == self.hybrid_vars[other],
    {
    }

    /// The same scope with another number of open blocks.
    pub open spec fn with_active_block_count(self, count: usize) -> ScopeView {
        ScopeView { active_block_count: count, ..self }
    }
}

impl View for Scope {
    type V = ScopeView;

    closed spec fn view(&self) -> ScopeView {
        ScopeView {
            package_id: self.package_id,
            callable: self.callable,
            args_value_kind: self.args_value_kind@,
            env: self.env@,
            active_block_count: self.active_block_count,
            hybrid_vars: self.hybrid_vars@,
        }
    }
}

impl Scope {
    /// Creates a new call scope.
    pub fn new(
        package_id: PackageId,
        callable: Option<(LocalItemId, FunctorApp)>,
        args: Vec<Arg>,
    ) -> (scope: Scope)
        ensures
            scope@ == (ScopeView {
                package_id,
                callable,
                args_value_kind: kinds_of(args@),
                env: initial_env(args@),
                active_block_count: 1,
                hybrid_vars: dynamic_bindings(args@),
            }),
    {
        // The environment starts with one frame. One more is opened for the
        // call, so that a return of the classical evaluator, which closes it,
        // can be told from the depth.
        let mut env = Env::default();
        env.push_scope(CLASSICAL_EVALUATOR_CALL_SCOPE_ID);

        // Determine the runtime kind (static or dynamic) of the arguments.
        let mut args_value_kind: Vec<ValueKind> = Vec::new();
        let mut i: usize = 0;
        while i < args.len()
            invariant
                i <= args.len(),
                args_value_kind@ == kinds_of(args@.take(i as int)),
            decreases args.len() - i,
        {
            let kind = match &args[i] {
                Arg::Discard(value) => map_eval_value_to_value_kind(value),
                Arg::Var(_, var) => map_eval_value_to_value_kind(&var.value),
            };
            args_value_kind.push(kind);
            assert(args_value_kind@ =~= kinds_of(args@.take(i + 1)));
            i += 1;
        }
        assert(args@.take(args.len() as int) =~= args@);

        // Add the values to either the environment or the hybrid variables
        // depending on whether the value is static or dynamic.
        let ghost all = args@;
        let mut hybrid_vars = new_table();
        let count: usize = args_value_kind.len();
        let mut k: usize = 0;
        assert(env@ =~= initial_env(all.take(0)));
        for arg in iter: args.into_iter()
            invariant
                iter.seq() == all,
                k == iter.index(),
                count == all.len(),
                args_value_kind@ == kinds_of(all),
                env@ == initial_env(all.take(k as int)),
                hybrid_vars@ == dynamic_bindings(all.take(k as int)),
        {
            assert(all.take(k + 1).drop_last() =~= all.take(k as int));
            assert(k < count);
            let dynamic = args_value_kind[k].is_dynamic();
            k += 1;
            match arg {
                Arg::Var(local_var_id, var) => {
                    if dynamic {
                        table_insert(&mut hybrid_vars, local_var_id.0, var.value);
                    } else {
                        env.bind_variable_in_top_frame(local_var_id, var);
                        assert(env@ =~= initial_env(all.take(k as int)));
                    }
                },
                Arg::Discard(_) => {},
            }
        }
        assert(all.take(k as int) =~= all);

        Scope { package_id, callable, args_value_kind, env, active_block_count: 1, hybrid_vars }
    }

    /// The package ID of the callable.
    pub fn package_id(&self) -> (package_id: PackageId)
        ensures
            package_id == self@.package_id,
    {
        self.package_id
    }

    /// The ID and functor information of the callable.
    pub fn callable(&self) -> (callable: Option<(LocalItemId, FunctorApp)>)
        ensures
            callable == self@.callable,
    {
        self.callable
    }

    /// The kinds of the arguments passed to the callable.
    pub fn args_value_kind(&self) -> (kinds: &Vec<ValueKind>)
        ensures
            kinds@ == self@.args_value_kind,
    {
        &self.args_value_kind
    }

    /// The classical environment of the callable.
    pub fn env(&self) -> (env: &Env)
        ensures
            env@ == self@.env,
    {
        &self.env
    }

    /// The classical environment of the callable, to be changed in place.
    pub fn env_mut(&mut self) -> (env: &mut Env)
        ensures
            env@ == old(self)@.env,
            final(self)@ == (ScopeView { env: final(env)@, ..old(self)@ }),
    {
        &mut self.env
    }

    /// Gets the value of a (hybrid) local variable.
    pub fn get_local_var_value(&self, local_var_id: LocalVarId) -> (value: &Value)
        requires
            self@.hybrid_vars.contains_key(local_var_id.0),
        ensures
            *value == self@.hybrid_vars[local_var_id.0],
    {
        table_get(&self.hybrid_vars, local_var_id.0).unwrap()
    }

    /// Gets the value of a (hybrid) local variable, if the variable is one.
    pub fn find_local_var_value(&self, local_var_id: LocalVarId) -> (found: Option<&Value>)
        ensures
            match found {
                Some(value) => self@.hybrid_vars.contains_key(local_var_id.0) && *value
                    == self@.hybrid_vars[local_var_id.0],
                None => !self@.hybrid_vars.contains_key(local_var_id.0),
            },
    {
        table_get(&self.hybrid_vars, local_var_id.0)
    }

    /// The number of currently active blocks, counted from where this scope
    /// was created.
    pub fn active_block_count(&self) -> (count: usize)
        ensures
            count == self@.active_block_count,
    {
        self.active_block_count
    }

    /// Determines whether we are currently evaluating a branch within the scope.
    pub fn is_currently_evaluating_branch(&self) -> (in_branch: bool)
        ensures
            in_branch == (self@.active_block_count > 1),
    {
        self.active_block_count > 1
    }

    /// Determines whether the classical evaluator has returned from the call scope.
    /// The classical evaluator closes the frame of the call when it meets a return,
    /// so after that exactly one frame is left.
    pub fn has_classical_evaluator_returned(&self) -> (returned: bool)
        ensures
            returned == (self@.env.len() == 1),
    {
        self.env.len() == 1
    }

    /// Counts one more open block.
    pub(crate) fn increment_active_block_count(&mut self)
        requires
            old(self)@.active_block_count < usize::MAX,
        ensures
            final(self)@ == old(self)@.with_active_block_count(
                (old(self)@.active_block_count + 1) as usize,
            ),
    {
        self.active_block_count += 1;
    }

    /// Counts one open block less.
    pub(crate) fn decrement_active_block_count(&mut self)
        requires
            old(self)@.active_block_count > 0,
        ensures
            final(self)@ == old(self)@.with_active_block_count(
                (old(self)@.active_block_count - 1) as usize,
            ),
    {
        self.active_block_count -= 1;
    }

    /// Inserts the value of a local variable into the hybrid variables.
    pub fn insert_local_var_value(&mut self, local_var_id: LocalVarId, value: Value)
        ensures
            final(self)@ == old(self)@.with_local_var_value(local_var_id.0, value),
    {
        table_insert(&mut self.hybrid_vars, local_var_id.0, value);
    }
}

} // verus!

//! The evaluation context: the stack of blocks that instructions are added to,
//! and the stack of call scopes.

use vstd::prelude::*;
use crate::ids::{BlockId, PackageId};
use crate::scope::{dynamic_bindings, initial_env, kinds_of, Scope, ScopeView};

verus! {

/// A block of instructions, seen as a node of the program's graph.
#[derive(Clone, Copy, Debug, PartialEq, Eq, Structural)]
pub struct BlockNode {
    /// The ID of the block.
    pub id: BlockId,
    /// The block to jump to (if any) once all instructions to the block have been added.
    pub successor: Option<BlockId>,
}

/// Keeps track of the active blocks (where instructions are added) and of the
/// active scopes (the call stack of the program under evaluation).
pub struct EvaluationContext {
    active_blocks: Vec<BlockNode>,
    scopes: Vec<Scope>,
}

/// What an evaluation context holds: both stacks, the innermost element last.
pub struct ContextView {
    pub active_blocks: Seq<BlockNode>,
    pub scopes: Seq<ScopeView>,
}

impl ContextView {
    /// The context after a block was pushed: the block is on top, and the
    /// current scope has one more open block.
    pub open spec fn push_block_node(self, b: BlockNode) -> ContextView
        recommends
            self.scopes.len() > 0,
            self.scopes.last().active_block_count < usize::MAX,
    {
        ContextView {
            active_blocks: self.active_blocks.push(b),
            scopes: self.scopes.drop_last().push(
                self.scopes.last().with_active_block_count(
                    (self.scopes.last().active_block_count + 1) as usize,
                ),
            ),
        }
    }

    /// The context after a scope was pushed: the scope is the current one.
    pub open spec fn push_scope(self, s: ScopeView) -> ContextView {
        ContextView { active_blocks: self.active_blocks, scopes: self.scopes.push(s) }
    }

    /// The context after the current scope was popped.
    pub open spec fn pop_scope(self) -> ContextView
        recommends
            self.scopes.len() > 0,
    {
        ContextView { active_blocks: self.active_blocks, scopes: self.scopes.drop_last() }
    }

    /// The context after the top block was popped: the current scope has one
    /// open block less.
    pub open spec fn pop_block_node(self) -> ContextView
        recommends
            self.scopes.len() > 0,
            self.active_blocks.len() > 0,
            self.scopes.last().active_block_count > 0,
    {
        ContextView {
            active_blocks: self.active_blocks.drop_last(),
            scopes: self.scopes.drop_last().push(
                self.scopes.last().with_active_block_count(
                    (self.scopes.last().active_block_count - 1) as usize,
                ),
            ),
        }
    }
}

/// One step of block bookkeeping.
pub enum BlockOp {
    /// A block is pushed.
    Push(BlockNode),
    /// The top block is popped.
    Pop,
}

/// How many more blocks were pushed than popped.
pub open spec fn depth_after(ops: Seq<BlockOp>) -> int
    decreases ops.len(),
{
    if ops.len() == 0 {
        0
    } else {
        depth_after(ops.drop_last()) + match ops.last() {
            BlockOp::Push(_) => 1int,
            BlockOp::Pop => -1int,
        }
    }
}

/// Whether no step pops a block that the steps before it did not push.
pub open spec fn pops_only_own(ops: Seq<BlockOp>) -> bool {
    forall|n: int| 0 <= n <= ops.len() ==> depth_after(#[trigger] ops.take(n)) >= 0
}

/// Whether pushes and pops are matched: every pop closes a block that an
/// earlier step pushed, and every pushed block is popped.
pub open spec fn matched(ops: Seq<BlockOp>) -> bool {
    pops_only_own(ops) && depth_after(ops) == 0
}

/// The context after a sequence of steps.
pub open spec fn after_block_ops(context: ContextView, ops: Seq<BlockOp>) -> ContextView
    decreases ops.len(),
{
    if ops.len() == 0 {
        context
    } else {
        let before = after_block_ops(context, ops.drop_last());
        match ops.last() {
            BlockOp::Push(b) => before.push_block_node(b),
            BlockOp::Pop => before.pop_block_node(),
        }
    }
}

/// Whether the current scope's count of open blocks, starting from `count`,
/// stays within its bounds at every step.
pub open spec fn count_stays_in_bounds(count: usize, ops: Seq<BlockOp>) -> bool {
    forall|n: int|
        0 <= n <= ops.len() ==> 0 <= count + depth_after(#[trigger] ops.take(n)) <= usize::MAX
}

/// The steps change the current scope's count of open blocks by the number of
/// pushes less the number of pops, and no other part of any scope. So after
/// as many pops as pushes, in whatever order, the count is what it was.
pub proof fn lemma_block_ops_count(context: ContextView, ops: Seq<BlockOp>)
    requires
        context.scopes.len() > 0,
        count_stays_in_bounds(context.scopes.last().active_block_count, ops),
    ensures
        after_block_ops(context, ops).scopes == context.scopes.drop_last().push(
            context.scopes.last().with_active_block_count(
                (context.scopes.last().active_block_count + depth_after(ops)) as usize,
            ),
        ),
        depth_after(ops) == 0 ==> after_block_ops(context, ops).scopes == context.scopes,
    decreases ops.len(),
{
    let count = context.scopes.last().active_block_count;
    assert(ops.take(ops.len() as int) =~= ops);
    if ops.len() == 0 {
        assert(context.scopes =~= context.scopes.drop_last().push(context.scopes.last()));
    } else {
        let shorter = ops.drop_last();
        assert forall|n: int| 0 <= n <= shorter.len() implies 0 <= count + depth_after(
            #[trigger] shorter.take(n),
        ) <= usize::MAX by {
            assert(shorter.take(n) =~= ops.take(n));
        }
        assert(shorter.take(shorter.len() as int) =~= shorter);
        lemma_block_ops_count(context, shorter);
        let before = after_block_ops(context, shorter);
        let after = after_block_ops(context, ops);
        assert(before.scopes.drop_last() =~= context.scopes.drop_last());
        assert(after.scopes =~= context.scopes.drop_last().push(
            context.scopes.last().with_active_block_count((count + depth_after(ops)) as usize),
        ));
        if depth_after(ops) == 0 {
            assert(context.scopes =~= context.scopes.drop_last().push(context.scopes.last()));
        }
    }
}

/// What happens to blocks while a callee's scope is the current one leaves
/// the scopes of its callers as they were: once the callee's scope is popped,
/// the stack of scopes is what it was before the call.
pub proof fn lemma_callee_leaves_caller_scopes(
    context: ContextView,
    callee: ScopeView,
    ops: Seq<BlockOp>,
)
    requires
        count_stays_in_bounds(callee.active_block_count, ops),
    ensures
        after_block_ops(context.push_scope(callee), ops).pop_scope().scopes == context.scopes,
        depth_after(ops) == 0 ==> after_block_ops(context.push_scope(callee), ops).scopes.last()
            == callee,
{
    let entered = context.push_scope(callee);
    lemma_block_ops_count(entered, ops);
    assert(entered.scopes.drop_last() =~= context.scopes);
    assert(after_block_ops(entered, ops).scopes.drop_last() =~= context.scopes);
}

/// After steps that pop only what they pushed, the stack of blocks is the
/// former one with the blocks that are still open on top, the current scope
/// counts exactly those blocks more, and nothing else has changed.
pub proof fn lemma_block_ops_nest(context: ContextView, ops: Seq<BlockOp>)
    requires
        context.scopes.len() > 0,
        pops_only_own(ops),
        context.scopes.last().active_block_count + ops.len() <= usize::MAX,
    ensures
        0 <= depth_after(ops) <= ops.len(),
        after_block_ops(context, ops).scopes.len() == context.scopes.len(),
        after_block_ops(context, ops).scopes.drop_last() == context.scopes.drop_last(),
        after_block_ops(context, ops).scopes.last() == context.scopes.last().with_active_block_count(
            (context.scopes.last().active_block_count + depth_after(ops)) as usize,
        ),
        after_block_ops(context, ops).active_blocks.len() == context.active_blocks.len()
            + depth_after(ops),
        after_block_ops(context, ops).active_blocks.take(context.active_blocks.len() as int)
            == context.active_blocks,
    decreases ops.len(),
{
    let base = context.active_blocks.len() as int;
    if ops.len() == 0 {
        assert(context.active_blocks.take(base) =~= context.active_blocks);
    } else {
        let shorter = ops.drop_last();
        assert(ops.take(ops.len() as int) =~= ops);
        assert forall|n: int| 0 <= n <= shorter.len() implies depth_after(
            #[trigger] shorter.take(n),
        ) >= 0 by {
            assert(shorter.take(n) =~= ops.take(n));
        }
        assert(shorter.take(shorter.len() as int) =~= shorter);
        lemma_block_ops_nest(context, shorter);
        let before = after_block_ops(context, shorter);
        let after = after_block_ops(context, ops);
        assert(after.scopes.drop_last() =~= before.scopes.drop_last());
        assert(after.active_blocks.take(base) =~= before.active_blocks.take(base));
    }
}

/// Stack discipline: after matched pushes and pops the context is what it was
/// before them. In particular the current scope counts as many open blocks as
/// before: one, if it was new.
pub proof fn lemma_matched_block_ops_restore(context: ContextView, ops: Seq<BlockOp>)
    requires
        context.scopes.len() > 0,
        matched(ops),
        context.scopes.last().active_block_count + ops.len() <= usize::MAX,
    ensures
        after_block_ops(context, ops) == context,
{
    lemma_block_ops_nest(context, ops);
    let after = after_block_ops(context, ops);
    assert(after.active_blocks.take(context.active_blocks.len() as int) =~= after.active_blocks);
    assert(after.scopes =~= after.scopes.drop_last().push(after.scopes.last()));
    assert(context.scopes =~= context.scopes.drop_last().push(context.scopes.last()));
}

/// The scope of the entry point: no callable, no arguments, one open block.
pub open spec fn entry_scope(package_id: PackageId) -> ScopeView {
    ScopeView {
        package_id,
        callable: None,
        args_value_kind: kinds_of(Seq::empty()),
        env: initial_env(Seq::empty()),
        active_block_count: 1,
        hybrid_vars: dynamic_bindings(Seq::empty()),
    }
}

impl View for EvaluationContext {
    type V = ContextView;

    closed spec fn view(&self) -> ContextView {
        ContextView {
            active_blocks: self.active_blocks@,
            scopes: self.scopes@.map_values(|scope: Scope| scope@),
        }
    }
}

impl EvaluationContext {
    /// Creates a new evaluation context.
    pub fn new(package_id: PackageId, initial_block: BlockId) -> (context: EvaluationContext)
        ensures
            context@ == (ContextView {
                active_blocks: seq![(BlockNode { id: initial_block, successor: None })],
                scopes: seq![entry_scope(package_id)],
            }),
    {
        let entry_callable_scope = Scope::new(package_id, None, Vec::new());
        let mut active_blocks: Vec<BlockNode> = Vec::new();
        active_blocks.push(BlockNode { id: initial_block, successor: None });
        let mut scopes: Vec<Scope> = Vec::new();
        scopes.push(entry_callable_scope);
        let context = EvaluationContext { active_blocks, scopes };
        assert(context@.scopes =~= seq![entry_scope(package_id)]);
        context
    }

    /// The number of active blocks.
    pub fn block_depth(&self) -> (depth: usize)
        ensures
            depth == self@.active_blocks.len(),
    {
        self.active_blocks.len()
    }

    /// The number of active (call) scopes.
    pub fn scope_depth(&self) -> (depth: usize)
        ensures
            depth == self@.scopes.len(),
    {
        self.scopes.len()
    }

    /// Gets the ID of the current block.
    pub fn get_current_block_id(&self) -> (id: BlockId)
        requires
            self@.active_blocks.len() > 0,
        ensures
            id == self@.active_blocks.last().id,
    {
        self.active_blocks[self.active_blocks.len() - 1].id
    }

    /// Gets an immutable reference to the current (call) scope.
    pub fn get_current_scope(&self) -> (scope: &Scope)
        requires
            self@.scopes.len() > 0,
        ensures
            scope@ == self@.scopes.last(),
    {
        &self.scopes[self.scopes.len() - 1]
    }

    /// Gets a mutable reference to the current (call) scope.
    pub fn get_current_scope_mut(&mut self) -> (scope: &mut Scope)
        requires
            old(self)@.scopes.len() > 0,
        ensures
            scope@ == old(self)@.scopes.last(),
            final(self)@.active_blocks == old(self)@.active_blocks,
            final(self)@.scopes =~= old(self)@.scopes.drop_last().push(final(scope)@),
    {
        let top: usize = self.scopes.len() - 1;
        &mut self.scopes[top]
    }

    /// Pops the currently active block.
    pub fn pop_block_node(&mut self) -> (b: BlockNode)
        requires
            old(self)@.scopes.len() > 0,
            old(self)@.active_blocks.len() > 0,
            old(self)@.scopes.last().active_block_count > 0,
        ensures
            b == old(self)@.active_blocks.last(),
            final(self)@ == old(self)@.pop_block_node(),
    {
        let mut scope = self.scopes.pop().unwrap();
        scope.decrement_active_block_count();
        self.scopes.push(scope);
        let b = self.active_blocks.pop().unwrap();
        assert(self@.scopes =~= old(self)@.pop_block_node().scopes);
        b
    }

    /// Pops the currently active (call) scope.
    pub fn pop_scope(&mut self) -> (scope: Scope)
        requires
            old(self)@.scopes.len() > 0,
        ensures
            scope@ == old(self)@.scopes.last(),
            final(self)@ == old(self)@.pop_scope(),
    {
        let scope = self.scopes.pop().unwrap();
        assert(self@.scopes =~= old(self)@.scopes.drop_last());
        scope
    }

    /// Pushes a new active block.
    pub fn push_block_node(&mut self, b: BlockNode)
        requires
            old(self)@.scopes.len() > 0,
            old(self)@.scopes.last().active_block_count < usize::MAX,
        ensures
            final(self)@ == old(self)@.push_block_node(b),
    {
        self.active_blocks.push(b);
        let mut scope = self.scopes.pop().unwrap();
        scope.increment_active_block_count();
        self.scopes.push(scope);
        assert(self@.scopes =~= old(self)@.push_block_node(b).scopes);
    }

    /// Pushes a new (call) scope.
    pub fn push_scope(&mut self, s: Scope)
        ensures
            final(self)@ == old(self)@.push_scope(s@),
    {
        self.scopes.push(s);
        assert(self@.scopes =~= old(self)@.scopes.push(s@));
    }
}

} // verus!

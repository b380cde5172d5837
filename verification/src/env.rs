//! The classical environment: a stack of frames that bind local variables to
//! values known at compile time.

use vstd::prelude::*;
use crate::ids::{LocalVarId, Span};
use crate::value::Value;

verus! {

/// A bound local variable.
#[derive(Clone, Debug, PartialEq, Eq)]
pub struct Variable {
    /// The name of the variable in the source.
    pub name: String,
    /// The value it is bound to.
    pub value: Value,
    /// Where it was declared.
    pub span: Span,
}

/// One binding of a frame.
struct Binding {
    id: LocalVarId,
    var: Variable,
}

/// One nested scope of the environment.
struct Frame {
    frame_id: usize,
    /// The bindings in the order in which they were made; a later binding of
    /// an identifier hides an earlier one.
    bindings: Vec<Binding>,
}

/// What a frame holds: the call frame it belongs to, and its bindings by the
/// number of the local variable.
pub struct FrameView {
    pub frame_id: usize,
    pub bindings: Map<u32, Variable>,
}

/// The classical environment of one callable invocation.
pub struct Env {
    frames: Vec<Frame>,
}

/// The map that a list of bindings stands for.
spec fn bindings_of(bindings: Seq<Binding>) -> Map<u32, Variable>
    decreases bindings.len(),
{
    if bindings.len() == 0 {
        Map::empty()
    } else {
        bindings_of(bindings.drop_last()).insert(bindings.last().id.0, bindings.last().var)
    }
}

/// The variable that `id` is bound to in the topmost `depth` frames that belong
/// to the call frame `frame_id`, the innermost binding first.
pub open spec fn lookup_from(frames: Seq<FrameView>, depth: nat, frame_id: usize, id: u32) -> Option<
    Variable,
>
    decreases depth,
{
    if depth == 0 || depth > frames.len() || frames[depth - 1].frame_id != frame_id {
        None
    } else if frames[depth - 1].bindings.contains_key(id) {
        Some(frames[depth - 1].bindings[id])
    } else {
        lookup_from(frames, (depth - 1) as nat, frame_id, id)
    }
}

/// The variable that `id` is bound to in an environment: the innermost binding
/// among the frames on top that share the call frame of the topmost one.
pub open spec fn lookup(frames: Seq<FrameView>, id: u32) -> Option<Variable> {
    if frames.len() == 0 {
        None
    } else {
        lookup_from(frames, frames.len(), frames.last().frame_id, id)
    }
}

impl View for Frame {
    type V = FrameView;

    closed spec fn view(&self) -> FrameView {
        FrameView { frame_id: self.frame_id, bindings: bindings_of(self.bindings@) }
    }
}

impl Frame {
    /// The innermost binding of `id` in this frame.
    fn find(&self, id: LocalVarId) -> (found: Option<&Variable>)
        ensures
            match found {
                Some(var) => self@.bindings.contains_key(id.0) && self@.bindings[id.0] == *var,
                None => !self@.bindings.contains_key(id.0),
            },
    {
        let ghost all = self.bindings@;
        let mut i: usize = self.bindings.len();
        assert(all.subrange(0, i as int) =~= all);
        while i > 0
            invariant
                i <= all.len(),
                all == self.bindings@,
                bindings_of(all).contains_key(id.0) == bindings_of(
                    all.subrange(0, i as int),
                ).contains_key(id.0),
                bindings_of(all).contains_key(id.0) ==> bindings_of(all)[id.0] == bindings_of(
                    all.subrange(0, i as int),
                )[id.0],
            decreases i,
        {
            assert(all.subrange(0, i as int).drop_last() =~= all.subrange(0, i - 1));
            if self.bindings[i - 1].id.0 == id.0 {
                return Some(&self.bindings[i - 1].var);
            }
            i -= 1;
        }
        None
    }
}

impl View for Env {
    type V = Seq<FrameView>;

    closed spec fn view(&self) -> Seq<FrameView> {
        self.frames@.map_values(|frame: Frame| frame@)
    }
}

impl Default for Env {
    /// An environment with one frame, of call frame 0, that binds nothing.
    fn default() -> (env: Env)
        ensures
            env@ == seq![(FrameView { frame_id: 0, bindings: Map::empty() })],
    {
        let mut frames: Vec<Frame> = Vec::new();
        frames.push(Frame { frame_id: 0, bindings: Vec::new() });
        let env = Env { frames };
        assert(env@ =~= seq![(FrameView { frame_id: 0, bindings: Map::empty() })]);
        env
    }
}

impl Env {
    /// The number of frames.
    pub fn len(&self) -> (depth: usize)
        ensures
            depth == self@.len(),
    {
        self.frames.len()
    }

    /// Opens a nested scope that belongs to the call frame `frame_id`.
    pub fn push_scope(&mut self, frame_id: usize)
        ensures
            final(self)@ == old(self)@.push(
                (FrameView { frame_id, bindings: Map::empty() }),
            ),
    {
        self.frames.push(Frame { frame_id, bindings: Vec::new() });
        assert(self@ =~= old(self)@.push((FrameView { frame_id, bindings: Map::empty() })));
    }

    /// Closes the innermost scope.
    pub fn leave_scope(&mut self)
        requires
            old(self)@.len() > 0,
        ensures
            final(self)@ == old(self)@.drop_last(),
    {
        let _ = self.frames.pop();
        assert(self@ =~= old(self)@.drop_last());
    }

    /// Binds a local variable in the innermost scope, hiding what it was bound
    /// to there before.
    pub fn bind_variable_in_top_frame(&mut self, local_var_id: LocalVarId, var: Variable)
        requires
            old(self)@.len() > 0,
        ensures
            final(self)@ == old(self)@.drop_last().push(
                (FrameView {
                    frame_id: old(self)@.last().frame_id,
                    bindings: old(self)@.last().bindings.insert(local_var_id.0, var),
                }),
            ),
    {
        let mut top = self.frames.pop().unwrap();
        let ghost before = top.bindings@;
        top.bindings.push(Binding { id: local_var_id, var });
        assert(top.bindings@.drop_last() =~= before);
        self.frames.push(top);
        assert(self@ =~= old(self)@.drop_last().push(
            (FrameView {
                frame_id: old(self)@.last().frame_id,
                bindings: old(self)@.last().bindings.insert(local_var_id.0, var),
            }),
        ));
    }

    /// The variable that `id` is bound to, if any.
    pub fn get(&self, id: LocalVarId) -> (found: Option<&Variable>)
        ensures
            match found {
                Some(var) => lookup(self@, id.0) == Some(*var),
                None => lookup(self@, id.0).is_none(),
            },
    {
        let n: usize = self.frames.len();
        if n == 0 {
            return None;
        }
        let frame_id: usize = self.frames[n - 1].frame_id;
        let mut i: usize = n;
        while i > 0 && self.frames[i - 1].frame_id == frame_id
            invariant
                i <= n,
                n == self.frames.len(),
                n == self@.len(),
                lookup(self@, id.0) == lookup_from(self@, i as nat, frame_id, id.0),
            decreases i,
        {
            match self.frames[i - 1].find(id) {
                Some(var) => {
                    return Some(var);
                },
                None => {},
            }
            i -= 1;
        }
        None
    }
}

} // verus!

//! Identifiers of packages, items, local variables and blocks.

use vstd::prelude::*;

verus! {

/// Identifies a package of the program.
#[derive(Clone, Copy, Debug, PartialEq, Eq, Structural)]
pub struct PackageId(pub usize);

/// Identifies an item within its package.
#[derive(Clone, Copy, Debug, PartialEq, Eq, Structural)]
pub struct LocalItemId(pub usize);

/// Identifies a local variable within its callable.
#[derive(Clone, Copy, Debug, PartialEq, Eq, Structural)]
pub struct LocalVarId(pub u32);

/// Identifies a block of emitted instructions.
#[derive(Clone, Copy, Debug, PartialEq, Eq, Structural)]
pub struct BlockId(pub u32);

/// Identifies an item across packages.
#[derive(Clone, Copy, Debug, PartialEq, Eq, Structural)]
pub struct StoreItemId {
    pub package: PackageId,
    pub item: LocalItemId,
}

/// Which adjoint/controlled variant of a callable is invoked.
#[derive(Clone, Copy, Debug, PartialEq, Eq, Structural)]
pub struct FunctorApp {
    /// Whether the adjoint is taken.
    pub adjoint: bool,
    /// How many times the callable is controlled.
    pub controlled: u8,
}

/// A region of source text, as byte offsets.
#[derive(Clone, Copy, Debug, PartialEq, Eq, Structural)]
pub struct Span {
    pub lo: u32,
    pub hi: u32,
}

} // verus!

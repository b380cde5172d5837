//! The table of hybrid variables: local variables whose value is dynamic.
//!
//! The table is an `FxHashMap`, that is a `HashMap` of the standard library
//! with the hasher of `rustc_hash`. The verifier knows the bindings of a
//! `HashMap` as a map, `table@`, and here takes on trust what the three
//! functions below state of it.

use vstd::prelude::*;
use rustc_hash::FxHashMap;
use crate::value::Value;

verus! {

/// `rustc_hash::FxHasher`, the hasher of the table. Nothing is known of it.
#[verifier::external_type_specification]
#[verifier::external_body]
pub struct ExFxHasher(rustc_hash::FxHasher);

/// `std::hash::BuildHasherDefault`, which makes the table's hashers. Nothing
/// is known of it.
#[verifier::external_type_specification]
#[verifier::external_body]
#[verifier::reject_recursive_types(H)]
pub struct ExBuildHasherDefault<H>(std::hash::BuildHasherDefault<H>);

/// The table that binds nothing.
pub open spec fn no_bindings() -> Map<u32, Value> {
    Map::empty()
}

/// Calls `FxHashMap::default`. Trusted: the new table binds nothing.
#[verifier::external_body]
pub(crate) fn new_table() -> (table: FxHashMap<u32, Value>)
    ensures
        table@ == no_bindings(),
{
    FxHashMap::default()
}

/// Calls `HashMap::insert` on the table. Trusted: afterwards the key is bound
/// to the value, whether or not it was bound before, and every other binding
/// is as it was.
#[verifier::external_body]
pub(crate) fn table_insert(table: &mut FxHashMap<u32, Value>, key: u32, value: Value)
    ensures
        final(table)@ == old(table)@.insert(key, value),
{
    table.insert(key, value);
}

/// Calls `HashMap::get` on the table. Trusted: the result is the value that
/// the key is bound to, and `None` exactly when it is bound to none.
#[verifier::external_body]
pub(crate) fn table_get(table: &FxHashMap<u32, Value>, key: u32) -> (found: Option<&Value>)
    ensures
        match found {
            Some(value) => table@.contains_key(key) && *value == table@[key],
            None => !table@.contains_key(key),
        },
{
    table.get(&key)
}

} // verus!

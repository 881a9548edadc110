//! Name tables: a hash map from names to slot numbers.
//!
//! The map itself is `ahash`'s; what it holds is spoken of through
//! `slot_names`, and each operation on it is declared here with what it does
//! to that content.

use ahash::AHashMap;
use ahash::RandomState;
use vstd::prelude::*;

verus! {

/// `ahash::AHashMap`, carried as an opaque value.
#[verifier::external_type_specification]
#[verifier::external_body]
#[verifier::reject_recursive_types(K)]
#[verifier::reject_recursive_types(V)]
#[verifier::reject_recursive_types(S)]
pub struct ExAHashMap<K, V, S>(AHashMap<K, V, S>);

/// `ahash::RandomState`, the default hasher of an `AHashMap`, carried as an
/// opaque value.
#[verifier::external_type_specification]
#[verifier::external_body]
pub struct ExRandomState(RandomState);

/// The slot number that the map holds for each name.
pub uninterp spec fn slot_names(m: AHashMap<String, usize>) -> Map<Seq<char>, usize>;

/// The content of a map without entries.
pub open spec fn no_names() -> Map<Seq<char>, usize> {
    Map::empty()
}

/// `AHashMap::new`: a map without entries.
#[verifier::external_body]
pub(crate) fn names_new() -> (table: AHashMap<String, usize>)
    ensures
        slot_names(table) == no_names(),
{
    AHashMap::new()
}

/// `AHashMap::get`: the slot stored under `key`, or `None` where the map has
/// no such key. Keys are compared as strings, character by character.
#[verifier::external_body]
pub(crate) fn names_get(table: &AHashMap<String, usize>, key: &str) -> (slot: Option<usize>)
    ensures
        slot == (if slot_names(*table).contains_key(key@) {
            Some(slot_names(*table)[key@])
        } else {
            None
        }),
{
    table.get(key).copied()
}

/// `AHashMap::insert`: afterwards `key` maps to `slot`, and every other key
/// to what it mapped to before.
#[verifier::external_body]
pub(crate) fn names_insert(table: &mut AHashMap<String, usize>, key: String, slot: usize)
    ensures
        slot_names(*final(table)) == slot_names(*old(table)).insert(key@, slot),
{
    table.insert(key, slot);
}

/// `AHashMap::remove`: afterwards the map has no entry for `key`, and every
/// other key maps to what it mapped to before.
#[verifier::external_body]
pub(crate) fn names_remove(table: &mut AHashMap<String, usize>, key: &str)
    ensures
        slot_names(*final(table)) == slot_names(*old(table)).remove(key@),
{
    table.remove(key);
}

} // verus!

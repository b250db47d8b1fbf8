//! The hash set of palette indices, as `bevy` provides it.
//!
//! Verus does not look inside `bevy::platform::collections::HashSet`, which
//! hands each call on to the set of `hashbrown`. What this module says of it
//! is taken from the documentation of the two and is not proved.

use bevy::platform::collections::HashSet;
use bevy::platform::hash::FixedHasher;
use vstd::prelude::*;

verus! {

/// `bevy::platform::collections::HashSet`, carried as an opaque value.
#[verifier::external_type_specification]
#[verifier::external_body]
#[verifier::reject_recursive_types(T)]
#[verifier::reject_recursive_types(S)]
pub struct ExHashSet<T, S>(HashSet<T, S>);

/// `bevy::platform::hash::FixedHasher`, the hasher that `HashSet` defaults to.
#[verifier::external_type_specification]
#[verifier::external_body]
pub struct ExFixedHasher(FixedHasher);

/// The indices that a set holds.
pub uninterp spec fn index_set_items(set: HashSet<usize>) -> Set<usize>;

/// `bevy::platform::collections::HashSet::new`: the set it returns holds
/// nothing.
#[verifier::external_body]
pub(crate) fn index_set_new() -> (set: HashSet<usize>)
    ensures
        index_set_items(set) == Set::<usize>::empty(),
{
    HashSet::new()
}

/// `bevy::platform::collections::HashSet::insert`: afterwards the set holds
/// what it held and `index`; the result tells whether `index` was absent
/// before.
#[verifier::external_body]
pub(crate) fn index_set_insert(set: &mut HashSet<usize>, index: usize) -> (fresh: bool)
    ensures
        index_set_items(*final(set)) == index_set_items(*old(set)).insert(index),
        fresh == !index_set_items(*old(set)).contains(index),
{
    set.insert(index)
}

/// `bevy::platform::collections::HashSet::contains`: whether the set holds
/// `index`.
#[verifier::external_body]
pub(crate) fn index_set_contains(set: &HashSet<usize>, index: usize) -> (found: bool)
    ensures
        found == index_set_items(*set).contains(index),
{
    set.contains(&index)
}

} // verus!

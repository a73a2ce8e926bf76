//! The concurrent map that the cache and the interner are built on.

use dashmap::DashMap;
use fxhash::{FxBuildHasher, FxHasher};
use std::hash::{BuildHasherDefault, Hash};
use vstd::prelude::*;

verus! {

#[verifier::external_type_specification]
#[verifier::external_body]
#[verifier::reject_recursive_types(K)]
#[verifier::reject_recursive_types(V)]
#[verifier::reject_recursive_types(S)]
pub struct ExDashMap<K, V, S>(DashMap<K, V, S>);

#[verifier::external_type_specification]
#[verifier::external_body]
#[verifier::reject_recursive_types(H)]
pub struct ExBuildHasherDefault<H>(BuildHasherDefault<H>);

#[verifier::external_type_specification]
#[verifier::external_body]
pub struct ExFxHasher(FxHasher);

/// Relies on `DashMap::default`: a new, empty map hashed with FxHash.
#[verifier::external_body]
pub(crate) fn new_map<K: Eq + Hash, V>() -> (r: DashMap<K, V, FxBuildHasher>) {
    DashMap::default()
}

} // verus!

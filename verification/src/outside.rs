//! Declarations of the outside types that the catalog carries.
use vstd::prelude::*;

verus! {

/// `serde_json::Value`, carried unchanged (themes, data-model values, function arguments).
#[verifier::external_type_specification]
#[verifier::external_body]
pub struct ExJsonValue(serde_json::Value);

/// `indexmap::IndexMap`: a hash map that remembers insertion order.
#[verifier::external_type_specification]
#[verifier::external_body]
#[verifier::reject_recursive_types(K)]
#[verifier::reject_recursive_types(V)]
#[verifier::reject_recursive_types(S)]
pub struct ExIndexMap<K, V, S>(indexmap::IndexMap<K, V, S>);

} // verus!

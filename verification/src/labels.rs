//! Label maps, as discovery hands them out.

use indexmap::IndexMap;
use std::sync::Arc;
use vstd::prelude::*;

verus! {

/// The insertion-ordered, key-unique map of the `indexmap` crate.
#[verifier::external_type_specification]
#[verifier::external_body]
#[verifier::reject_recursive_types(K)]
#[verifier::reject_recursive_types(V)]
#[verifier::reject_recursive_types(S)]
pub struct ExIndexMap<K, V, S>(IndexMap<K, V, S>);

/// The labels of an endpoint or of a route.
pub type Labels = IndexMap<String, String>;

/// Another handle on the same shared labels.
///
/// Trusted: stands for `Arc::clone`, which hands out a second pointer to
/// the value that the first points to.
#[verifier::external_body]
pub(crate) fn share_labels(labels: &Arc<Labels>) -> (r: Arc<Labels>)
    ensures
        r == *labels,
{
    Arc::clone(labels)
}

} // verus!

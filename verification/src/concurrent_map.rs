//! Declaration of dashmap's concurrent map type.

use vstd::prelude::*;

use dashmap::DashMap;

verus! {

/// Declares dashmap's `DashMap` so that fields, signatures and trusted items
/// of this crate may carry it. The confirmation registry and the settings
/// store each hold one, behind wrappers whose contracts describe its contents.
#[verifier::external_type_specification]
#[verifier::external_body]
#[verifier::reject_recursive_types(K)]
#[verifier::reject_recursive_types(V)]
#[verifier::reject_recursive_types(S)]
pub struct ExDashMap<K, V, S>(DashMap<K, V, S>);

} // verus!

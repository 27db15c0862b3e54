//! The proptest strategy type that the generators of this crate return.

use proptest::strategy::BoxedStrategy;
use vstd::prelude::*;

verus! {

/// proptest's type-erased strategy, carried through as an opaque value.
#[verifier::external_type_specification]
#[verifier::external_body]
#[verifier::reject_recursive_types(T)]
pub struct ExBoxedStrategy<T>(BoxedStrategy<T>);

} // verus!

//! The outside error type that capacity-checked operations hand back.
use vstd::prelude::*;

verus! {

/// `arrayvec::CapacityError<T>`: the error of an operation that did not
/// fit, carrying the rejected item (or nothing, with `T = ()`).
#[verifier::external_type_specification]
#[verifier::external_body]
#[verifier::reject_recursive_types(T)]
pub struct ExCapacityError<T>(arrayvec::CapacityError<T>);

} // verus!

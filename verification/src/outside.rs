//! Types of `frame_support` that values of the registry are made of.
//!
//! `frame_support` re-exports both from the crate `bounded-collections`.
//! They are declared without their fields: the verifier carries values of
//! these types around and learns what they hold only from the contracts in
//! [`crate::bounded`].

use vstd::prelude::*;
use frame_support::traits::ConstU32;
use frame_support::BoundedVec;

verus! {

/// `frame_support::BoundedVec<T, S>`: a `Vec<T>` that its own methods never
/// let grow beyond `S::get()` elements.
#[verifier::external_type_specification]
#[verifier::external_body]
#[verifier::reject_recursive_types(T)]
#[verifier::reject_recursive_types(S)]
pub struct ExBoundedVec<T, S>(BoundedVec<T, S>);

/// `frame_support::traits::ConstU32<N>`: the type-level constant `N`, used as
/// the capacity parameter of a `BoundedVec`.
#[verifier::external_type_specification]
#[verifier::external_body]
pub struct ExConstU32<const N: u32>(ConstU32<N>);

} // verus!

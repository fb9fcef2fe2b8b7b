use vstd::prelude::*;

verus! {

/// Marks the types that may implement the exchange interface; this module is
/// private, so no type outside the crate can.
pub trait Sealed {}

} // verus!

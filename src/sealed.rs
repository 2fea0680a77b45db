use vstd::prelude::*;

verus! {

/// Keeps the set of types that implement `IntoTuple` closed: this trait cannot
/// be named outside the crate.
pub trait Sealed {}

} // verus!

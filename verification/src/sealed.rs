//! The seal of the version tags: the module is private to the crate, so no
//! other crate can name the trait and implement it.
use vstd::prelude::*;

verus! {

/// Implemented by the version tags of this crate only.
pub trait Sealed {
}

} // verus!

//! The seal on the pad capability.

use vstd::prelude::*;

verus! {

/// Restricts [`crate::Iomuxc`] to the two pad representations this crate
/// defines. Only the crate can implement it, so only [`crate::Pad`] and
/// [`crate::ErasedPad`] can serve as pads.
pub trait Sealed {}

} // verus!

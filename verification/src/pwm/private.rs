//! The seal on the PWM output identifiers.

use vstd::prelude::*;

verus! {

/// Restricts [`super::Output`] to the two output legs a PWM submodule has,
/// [`super::A`] and [`super::B`].
pub trait Sealed {}

impl Sealed for super::A {}

impl Sealed for super::B {}

} // verus!

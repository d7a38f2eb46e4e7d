//! PWM pad configuration.

use vstd::prelude::*;
use crate::Iomuxc;
use crate::RegisterMemory;
use crate::alternate;
use crate::alternate_word;

mod private;

verus! {

/// A PWM output identifier; one of [`A`] or [`B`].
pub trait Output: private::Sealed {}

/// PWM output A. A type-level tag; no value of it is ever made.
pub enum A {
    A,
}

/// PWM output B. A type-level tag; no value of it is ever made.
pub enum B {
    B,
}

impl Output for A {}

impl Output for B {}

/// A pad usable as a PWM pin.
///
/// A chip-definition crate implements this for each pad that can route a
/// PWM signal, fixing the alternate-function value the role requires and
/// naming which PWM module, submodule and output leg the pad connects to,
/// so two pins can be checked at compile time for belonging together.
pub trait Pin: Iomuxc {
    /// The output leg the pad connects to: [`A`] or [`B`].
    type Output: Output;

    /// The alternate-function value that routes the PWM signal to the pad.
    spec fn alt_spec() -> u32;

    /// The PWM module the pad connects to; `2` for `PWM2`.
    spec fn module_spec() -> usize;

    /// The PWM submodule the pad connects to; `3` for `PWM2_SM3`.
    spec fn submodule_spec() -> usize;

    /// Returns the alternate-function value that routes the PWM signal to
    /// the pad.
    fn alt() -> (a: u32)
        ensures
            a == Self::alt_spec(),
    ;
}

/// Prepares a pad to be used as a PWM pin: sets the pin's
/// alternate-function value in the pad's multiplexer register, leaving
/// every other bit of the word and every other register unchanged.
pub fn prepare<P: Pin>(pin: &mut P, mem: &mut RegisterMemory)
    requires
        old(pin).addressable(),
    ensures
        *final(pin) == *old(pin),
        final(mem)@ == old(mem)@.push(
            (
                old(pin).mux_addr(),
                alternate_word(old(mem).word(old(pin).mux_addr()), P::alt_spec()),
            ),
        ),
        final(mem).word(old(pin).mux_addr()) == alternate_word(
            old(mem).word(old(pin).mux_addr()),
            P::alt_spec(),
        ),
        forall|a: usize| a != old(pin).mux_addr() ==> final(mem).word(a) == old(mem).word(a),
{
    let alt = P::alt();
    alternate(pin, alt, mem);
}

} // verus!

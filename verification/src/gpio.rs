//! GPIO pad configuration.

use vstd::prelude::*;
use crate::Iomuxc;
use crate::RegisterMemory;
use crate::alternate;
use crate::alternate_word;

verus! {

/// A pad usable as a GPIO pin.
///
/// A chip-definition crate implements this for each pad that can route a
/// GPIO signal, fixing the alternate-function value the role requires and
/// naming which GPIO module and offset the pad connects to.
pub trait Pin: Iomuxc {
    /// The alternate-function value that routes the GPIO signal to the
    /// pad.
    spec fn alt_spec() -> u32;

    /// The GPIO module the pad connects to; `5` for `GPIO5`.
    spec fn module_spec() -> usize;

    /// The offset within the module; `13` for `GPIO5_IO13`.
    spec fn offset_spec() -> usize;

    /// Returns the alternate-function value that routes the GPIO signal to
    /// the pad.
    fn alt() -> (a: u32)
        ensures
            a == Self::alt_spec(),
    ;
}

/// Prepares a pad to be used as a GPIO pin: sets the pin's
/// alternate-function value in the pad's multiplexer register, leaving
/// every other bit of the word and every other register unchanged.
pub fn prepare<P: Pin>(pin: &mut P, mem: &mut RegisterMemory)
    requires
        old(pin).addressable(),
    ensures
        *final(pin) == *old(pin),
        final(mem)@ == old(mem)@.push(
            (
                old(pin).mux_addr(),
                alternate_word(old(mem).word(old(pin).mux_addr()), P::alt_spec()),
            ),
        ),
        final(mem).word(old(pin).mux_addr()) == alternate_word(
            old(mem).word(old(pin).mux_addr()),
            P::alt_spec(),
        ),
        forall|a: usize| a != old(pin).mux_addr() ==> final(mem).word(a) == old(mem).word(a),
{
    let alt = P::alt();
    alternate(pin, alt, mem);
}

} // verus!

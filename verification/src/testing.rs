//! A miniature pad table for tests and examples.
//!
//! A real chip-definition crate enumerates every pad group of a processor
//! and implements the peripheral pin contracts for each pad that can serve
//! a role; this module does the same for one made-up group, so the generic
//! machinery can be exercised without a chip.

use vstd::prelude::*;
use crate::Group;
use crate::Pad;

verus! {

/// The one pad group of the miniature table.
pub type TestGroup = Group<0x1000, 0x2000>;

/// The group's first pad.
pub type TestPad = Pad<TestGroup, 0>;

impl crate::gpio::Pin for Pad<TestGroup, 3> {
    open spec fn alt_spec() -> u32 {
        5
    }

    open spec fn module_spec() -> usize {
        1
    }

    open spec fn offset_spec() -> usize {
        3
    }

    fn alt() -> (a: u32) {
        5
    }
}

impl crate::pwm::Pin for Pad<TestGroup, 4> {
    type Output = crate::pwm::A;

    open spec fn alt_spec() -> u32 {
        4
    }

    open spec fn module_spec() -> usize {
        2
    }

    open spec fn submodule_spec() -> usize {
        0
    }

    fn alt() -> (a: u32) {
        4
    }
}

} // verus!

//! A model of the memory-mapped register space that pad configuration
//! operates on.
//!
//! The processor exposes each pad's multiplexer and configuration registers
//! at fixed word-aligned addresses. [`RegisterMemory`] models that address
//! space as the sequence of word writes performed so far: the value of a
//! register is the value of the most recent write to its address, and a
//! register that was never written holds the power-on default of zero.
//! Keeping the whole write history lets a caller state not only what a
//! register holds, but also that an operation touched no other address.

use vstd::prelude::*;

verus! {

/// The value a register holds after the writes in `log`, most recent last:
/// the value of the last write to `addr`, or zero if `addr` was never written.
pub open spec fn word_of(log: Seq<(usize, u32)>, addr: usize) -> u32
    decreases log.len(),
{
    if log.len() == 0 {
        0
    } else if log.last().0 == addr {
        log.last().1
    } else {
        word_of(log.drop_last(), addr)
    }
}

/// The register address space, modelled as the history of word writes made
/// through it.
///
/// Every register starts at the power-on default of zero. Reads report the
/// value of the most recent write to the given address and are not recorded;
/// only writes extend the history.
pub struct RegisterMemory {
    log: Vec<(usize, u32)>,
}

impl View for RegisterMemory {
    type V = Seq<(usize, u32)>;

    closed spec fn view(&self) -> Seq<(usize, u32)> {
        self.log@
    }
}

impl RegisterMemory {
    /// The current value of the register at `addr`.
    pub open spec fn word(&self, addr: usize) -> u32 {
        word_of(self@, addr)
    }

    /// A fresh register space in its power-on state: nothing written, every
    /// register zero.
    pub fn new() -> (m: RegisterMemory)
        ensures
            m@ == Seq::<(usize, u32)>::empty(),
            forall|a: usize| m.word(a) == 0,
    {
        let m = RegisterMemory { log: Vec::new() };
        proof {
            assert(m@ =~= Seq::<(usize, u32)>::empty());
        }
        m
    }

    /// Reads the register at `addr`.
    pub fn read(&self, addr: usize) -> (v: u32)
        ensures
            v == self.word(addr),
    {
        let mut i: usize = self.log.len();
        proof {
            assert(self@.take(i as int) =~= self@);
        }
        while i > 0
            invariant
                i <= self.log.len(),
                word_of(self@, addr) == word_of(self@.take(i as int), addr),
            decreases i,
        {
            i = i - 1;
            let (a, v) = self.log[i];
            proof {
                assert(self@.take(i + 1).last() == self@[i as int]);
                assert(self@.take(i + 1).drop_last() =~= self@.take(i as int));
            }
            if a == addr {
                return v;
            }
        }
        0
    }

    /// Writes `value` to the register at `addr`, leaving every other
    /// register as it was.
    pub fn write(&mut self, addr: usize, value: u32)
        ensures
            final(self)@ == old(self)@.push((addr, value)),
            final(self).word(addr) == value,
            forall|a: usize| a != addr ==> final(self).word(a) == old(self).word(a),
    {
        self.log.push((addr, value));
        proof {
            assert(self@.drop_last() =~= old(self)@);
            assert forall|a: usize| a != addr implies self.word(a) == old(self).word(a) by {
                assert(self@.last() == (addr, value));
            }
        }
    }

    /// The history of writes made through this register space, oldest first.
    pub fn writes(&self) -> (w: &Vec<(usize, u32)>)
        ensures
            w@ == self@,
    {
        &self.log
    }
}

} // verus!

//! An interface for defining and configuring processor I/O pads.
//!
//! A 'pad' is a physical input / output on a microcontroller-class
//! processor, controlled through two fixed hardware registers: a
//! multiplexer register, which routes one of several peripheral functions
//! to the pad, and a configuration register, which holds its electrical
//! settings. This crate provides the pad identities, the register-level
//! protocol for changing a pad's function, and the contracts that peripheral
//! pin types layer on top.
//!
//! A pad exists in two forms. The strongly-typed [`Pad`] carries its group
//! and index in its type and has no runtime size: holding one is the
//! authority to change that pad's registers. The type-erased [`ErasedPad`]
//! carries the same identity as three runtime words, so pads of different
//! groups can be stored together; it can be converted back to the typed
//! form, fallibly, without losing the value on failure.
//!
//! All register traffic goes through a [`RegisterMemory`], the model of the
//! processor's register address space, so every operation's effect on the
//! registers — which address it wrote and what the word now holds — is part
//! of its contract.

use vstd::prelude::*;

pub mod gpio;
mod private;
pub mod pwm;
pub mod registers;
pub mod testing;

pub use registers::RegisterMemory;

verus! {

/// Registers are one 32-bit word each, laid out at a fixed stride of four
/// bytes from their group's base address.
pub open spec fn reg_addr(base: usize, index: usize) -> usize {
    (base + 4 * index) as usize
}

/// Whether the register at `index` words past `base` has an address the
/// machine can form. The chip-definition tables only pair a base with
/// indices inside its group, so this always holds of a real pad; it is a
/// caller-side obligation, never checked at run time.
pub open spec fn reg_addr_in_range(base: usize, index: usize) -> bool {
    base + 4 * index <= usize::MAX
}

/// Computes the absolute address of the register `index` words past `base`.
pub fn register_address(base: usize, index: usize) -> (a: usize)
    requires
        reg_addr_in_range(base, index),
    ensures
        a == reg_addr(base, index),
{
    base + 4 * index
}

/// A pad group base: the start of a run of similarly-named pads that share
/// one register block.
///
/// This trait is for chip-definition crates that enumerate a processor's
/// pads; do not implement it as an end user. An implementation must return
/// the two register base addresses of the group, and no two distinct groups
/// of one chip may share them.
pub trait Base {
    /// The address of the group's first multiplexer register.
    spec fn mux_base_spec() -> usize;

    /// The address of the group's first configuration register.
    spec fn pad_base_spec() -> usize;

    /// Returns the address of the group's first multiplexer register.
    fn mux_base() -> (a: usize)
        ensures
            a == Self::mux_base_spec(),
    ;

    /// Returns the address of the group's first configuration register.
    fn pad_base() -> (a: usize)
        ensures
            a == Self::pad_base_spec(),
    ;
}

/// A pad group defined directly by its two register base addresses.
///
/// Chip-definition crates name each group of a chip as an alias of this
/// type, one per register block.
#[derive(Debug)]
pub struct Group<const MUX_BASE: usize, const PAD_BASE: usize>;

impl<const MUX_BASE: usize, const PAD_BASE: usize> Base for Group<MUX_BASE, PAD_BASE> {
    open spec fn mux_base_spec() -> usize {
        MUX_BASE
    }

    open spec fn pad_base_spec() -> usize {
        PAD_BASE
    }

    fn mux_base() -> (a: usize) {
        MUX_BASE
    }

    fn pad_base() -> (a: usize) {
        PAD_BASE
    }
}

/// A pad that can have its function multiplexed: the capability the
/// register operations act through.
///
/// Only the two pad representations of this crate implement it, so holding
/// a value of an implementing type is holding the identity of one physical
/// pad.
pub trait Iomuxc: private::Sealed {
    /// The absolute address of the pad's multiplexer register.
    spec fn mux_addr(&self) -> usize;

    /// The absolute address of the pad's configuration register.
    spec fn pad_addr(&self) -> usize;

    /// Whether both register addresses can be formed without wrapping.
    /// Holds of every pad a chip-definition table describes.
    spec fn addressable(&self) -> bool;

    /// Returns the absolute address of the pad's multiplexer register.
    fn mux(&self) -> (a: usize)
        requires
            self.addressable(),
        ensures
            a == self.mux_addr(),
    ;

    /// Returns the absolute address of the pad's configuration register.
    fn pad(&self) -> (a: usize)
        requires
            self.addressable(),
        ensures
            a == self.pad_addr(),
    ;
}

/// A strongly-typed pad.
///
/// `B` is the pad's group and `INDEX` its position within the group, so two
/// pads have the same type exactly when they name the same physical pad.
/// A `Pad` carries no runtime state: the value is a zero-size token whose
/// possession stands for the exclusive right to change that pad's
/// registers.
#[derive(Debug)]
pub struct Pad<B, const INDEX: usize> {
    base: core::marker::PhantomData<B>,
}

impl<B, const INDEX: usize> Pad<B, INDEX> {
    /// Creates a handle to the pad.
    ///
    /// Nothing stops this from being called twice for one physical pad, and
    /// two live handles can race each other's read-modify-write register
    /// updates. Callers must either create each pad's handle once, near
    /// startup, or serialize every operation on the pad themselves.
    pub fn new() -> Pad<B, INDEX> {
        Pad { base: core::marker::PhantomData }
    }
}

impl<B: Base, const INDEX: usize> Pad<B, INDEX> {
    /// The absolute address of this pad type's multiplexer register.
    pub open spec fn mux_addr_spec() -> usize {
        reg_addr(B::mux_base_spec(), INDEX)
    }

    /// The absolute address of this pad type's configuration register.
    pub open spec fn pad_addr_spec() -> usize {
        reg_addr(B::pad_base_spec(), INDEX)
    }

    /// Whether this pad type's register addresses can be formed without
    /// wrapping.
    pub open spec fn addressable_spec() -> bool {
        reg_addr_in_range(B::mux_base_spec(), INDEX) && reg_addr_in_range(
            B::pad_base_spec(),
            INDEX,
        )
    }

    /// Whether `e` carries exactly this pad type's identity: both base
    /// addresses and the index agree. This equality is the sole basis for
    /// recovering a typed pad from an erased one.
    pub open spec fn matches_erased(e: ErasedPad) -> bool {
        e.mux_base_spec() == B::mux_base_spec() && e.pad_base_spec() == B::pad_base_spec()
            && e.offset_spec() == INDEX
    }

    /// Erases the pad's type, resolving its group to the two base addresses
    /// and keeping the index as a runtime value.
    pub fn erase(self) -> (e: ErasedPad)
        ensures
            e.mux_base_spec() == B::mux_base_spec(),
            e.pad_base_spec() == B::pad_base_spec(),
            e.offset_spec() == INDEX,
    {
        ErasedPad { mux_base: B::mux_base(), pad_base: B::pad_base(), offset: INDEX }
    }

    /// Attempts to reconstitute this strongly-typed pad from an erased one.
    ///
    /// Succeeds exactly when the erased pad's two base addresses and index
    /// match this type. On failure the erased pad comes back unchanged
    /// inside the error, so nothing is lost and the caller may try another
    /// type or keep the erased form.
    pub fn try_from(erased: ErasedPad) -> (r: Result<Pad<B, INDEX>, WrongPadError>)
        ensures
            r is Ok <==> Self::matches_erased(erased),
            r is Err ==> r->Err_0.0 == erased,
            r is Err ==> r->Err_0.0.mux_base_spec() == erased.mux_base_spec()
                && r->Err_0.0.pad_base_spec() == erased.pad_base_spec()
                && r->Err_0.0.offset_spec() == erased.offset_spec(),
    {
        if erased.mux_base == B::mux_base() && erased.pad_base == B::pad_base() && erased.offset
            == INDEX {
            Ok(Pad::new())
        } else {
            Err(WrongPadError(erased))
        }
    }
}

impl<B: Base, const INDEX: usize> Pad<B, INDEX> {
    /// Sets the alternate-function value of this pad type's multiplexer
    /// register, as [`alternate`] does.
    ///
    /// This conjures a fresh handle to the pad instead of taking one, so it
    /// can race a handle held elsewhere; the caller carries the obligation
    /// that no other mutator touches this pad's registers during the call.
    /// For an interface that takes the pad, see [`alternate`].
    pub fn set_alternate(alt: u32, mem: &mut RegisterMemory)
        requires
            Self::addressable_spec(),
        ensures
            final(mem)@ == old(mem)@.push(
                (Self::mux_addr_spec(), alternate_word(old(mem).word(Self::mux_addr_spec()), alt)),
            ),
            final(mem).word(Self::mux_addr_spec()) == alternate_word(
                old(mem).word(Self::mux_addr_spec()),
                alt,
            ),
            forall|a: usize| a != Self::mux_addr_spec() ==> final(mem).word(a) == old(mem).word(a),
    {
        let mut pad = Pad::<B, INDEX>::new();
        alternate(&mut pad, alt, mem);
    }

    /// Sets the SION bit of this pad type's multiplexer register, as
    /// [`set_sion`] does.
    ///
    /// This conjures a fresh handle to the pad instead of taking one, so it
    /// can race a handle held elsewhere; the caller carries the obligation
    /// that no other mutator touches this pad's registers during the call.
    /// For an interface that takes the pad, see [`set_sion`].
    pub fn set_sion(mem: &mut RegisterMemory)
        requires
            Self::addressable_spec(),
        ensures
            final(mem)@ == old(mem)@.push(
                (Self::mux_addr_spec(), sion_set_word(old(mem).word(Self::mux_addr_spec()))),
            ),
            final(mem).word(Self::mux_addr_spec()) == sion_set_word(
                old(mem).word(Self::mux_addr_spec()),
            ),
            forall|a: usize| a != Self::mux_addr_spec() ==> final(mem).word(a) == old(mem).word(a),
    {
        let mut pad = Pad::<B, INDEX>::new();
        set_sion(&mut pad, mem);
    }

    /// Clears the SION bit of this pad type's multiplexer register, as
    /// [`clear_sion`] does.
    ///
    /// This conjures a fresh handle to the pad instead of taking one, so it
    /// can race a handle held elsewhere; the caller carries the obligation
    /// that no other mutator touches this pad's registers during the call.
    /// For an interface that takes the pad, see [`clear_sion`].
    pub fn clear_sion(mem: &mut RegisterMemory)
        requires
            Self::addressable_spec(),
        ensures
            final(mem)@ == old(mem)@.push(
                (Self::mux_addr_spec(), sion_clear_word(old(mem).word(Self::mux_addr_spec()))),
            ),
            final(mem).word(Self::mux_addr_spec()) == sion_clear_word(
                old(mem).word(Self::mux_addr_spec()),
            ),
            forall|a: usize| a != Self::mux_addr_spec() ==> final(mem).word(a) == old(mem).word(a),
    {
        let mut pad = Pad::<B, INDEX>::new();
        clear_sion(&mut pad, mem);
    }

    /// Writes an encoded electrical configuration to this pad type's
    /// configuration register, as [`configure`] does.
    ///
    /// This conjures a fresh handle to the pad instead of taking one, so it
    /// can race a handle held elsewhere; the caller carries the obligation
    /// that no other mutator touches this pad's registers during the call.
    /// For an interface that takes the pad, see [`configure`].
    pub fn configure(config_word: u32, mem: &mut RegisterMemory)
        requires
            Self::addressable_spec(),
        ensures
            final(mem)@ == old(mem)@.push((Self::pad_addr_spec(), config_word)),
            final(mem).word(Self::pad_addr_spec()) == config_word,
            forall|a: usize| a != Self::pad_addr_spec() ==> final(mem).word(a) == old(mem).word(a),
    {
        let mut pad = Pad::<B, INDEX>::new();
        configure(&mut pad, config_word, mem);
    }
}

impl<B, const INDEX: usize> private::Sealed for Pad<B, INDEX> {}

impl<B: Base, const INDEX: usize> Iomuxc for Pad<B, INDEX> {
    open spec fn mux_addr(&self) -> usize {
        Pad::<B, INDEX>::mux_addr_spec()
    }

    open spec fn pad_addr(&self) -> usize {
        Pad::<B, INDEX>::pad_addr_spec()
    }

    open spec fn addressable(&self) -> bool {
        Pad::<B, INDEX>::addressable_spec()
    }

    fn mux(&self) -> (a: usize) {
        register_address(B::mux_base(), INDEX)
    }

    fn pad(&self) -> (a: usize) {
        register_address(B::pad_base(), INDEX)
    }
}

/// Law: an erased pad recovers against the pad type it came from.
///
/// [`Pad::erase`] hands back exactly the triple this lemma requires, so for
/// every group and index, erasing a pad and recovering it against the same
/// static type succeeds, and the recovered type addresses the very
/// registers the erased value did: nothing about the identity is changed by
/// the round trip.
pub proof fn lemma_erase_recover_roundtrip<B: Base, const INDEX: usize>(e: ErasedPad)
    requires
        e.mux_base_spec() == B::mux_base_spec(),
        e.pad_base_spec() == B::pad_base_spec(),
        e.offset_spec() == INDEX,
    ensures
        Pad::<B, INDEX>::matches_erased(e),
        e.mux_addr() == Pad::<B, INDEX>::mux_addr_spec(),
        e.pad_addr() == Pad::<B, INDEX>::pad_addr_spec(),
{
}

/// A pad that has had its type erased.
///
/// An `ErasedPad` carries a pad's identity — the two resolved register base
/// addresses and the index — as three runtime words, so pads of different
/// groups can live in one collection. It is produced only by
/// [`Pad::erase`], never assembled directly, and it grants the same
/// exclusive register access as the typed pad it came from.
#[derive(Debug)]
pub struct ErasedPad {
    mux_base: usize,
    pad_base: usize,
    offset: usize,
}

impl ErasedPad {
    /// The multiplexer-register base address of the pad's group.
    pub closed spec fn mux_base_spec(&self) -> usize {
        self.mux_base
    }

    /// The configuration-register base address of the pad's group.
    pub closed spec fn pad_base_spec(&self) -> usize {
        self.pad_base
    }

    /// The pad's index within its group.
    pub closed spec fn offset_spec(&self) -> usize {
        self.offset
    }

    /// Returns the multiplexer-register base address of the pad's group.
    pub fn mux_base(&self) -> (a: usize)
        ensures
            a == self.mux_base_spec(),
    {
        self.mux_base
    }

    /// Returns the configuration-register base address of the pad's group.
    pub fn pad_base(&self) -> (a: usize)
        ensures
            a == self.pad_base_spec(),
    {
        self.pad_base
    }

    /// Returns the pad's index within its group.
    pub fn offset(&self) -> (i: usize)
        ensures
            i == self.offset_spec(),
    {
        self.offset
    }
}

impl private::Sealed for ErasedPad {}

impl Iomuxc for ErasedPad {
    open spec fn mux_addr(&self) -> usize {
        reg_addr(self.mux_base_spec(), self.offset_spec())
    }

    open spec fn pad_addr(&self) -> usize {
        reg_addr(self.pad_base_spec(), self.offset_spec())
    }

    open spec fn addressable(&self) -> bool {
        reg_addr_in_range(self.mux_base_spec(), self.offset_spec()) && reg_addr_in_range(
            self.pad_base_spec(),
            self.offset_spec(),
        )
    }

    fn mux(&self) -> (a: usize) {
        register_address(self.mux_base, self.offset)
    }

    fn pad(&self) -> (a: usize) {
        register_address(self.pad_base, self.offset)
    }
}

/// The error of a failed [`Pad::try_from`] recovery: the erased pad did not
/// name the requested pad type. It wraps the pad that failed to convert, so
/// the caller keeps the identity.
#[derive(Debug)]
pub struct WrongPadError(pub ErasedPad);

/// The input-path-enable (SION) bit of a multiplexer register. When set, it
/// forces the pad's input buffer active even while the pad drives an
/// output, which some peripherals need for internal loopback.
pub const SION_BIT: u32 = 0x10;

/// The low four bits of a multiplexer register: the alternate-function
/// selector choosing which peripheral signal the pad routes.
pub const ALT_MASK: u32 = 0xF;

/// A multiplexer word with its SION bit set and every other bit as in `w`.
pub open spec fn sion_set_word(w: u32) -> u32 {
    w | SION_BIT
}

/// A multiplexer word with its SION bit cleared and every other bit as in
/// `w`.
pub open spec fn sion_clear_word(w: u32) -> u32 {
    w & !SION_BIT
}

/// A multiplexer word whose low four bits are replaced by the low four bits
/// of `alt` and whose other bits are as in `w`. Bits of `alt` above the
/// field width are silently dropped, as the hardware field would drop them.
pub open spec fn alternate_word(w: u32, alt: u32) -> u32 {
    (w & !ALT_MASK) | (alt & ALT_MASK)
}

/// Law: setting an alternate-function value makes the low four bits of the
/// multiplexer word equal to the low four bits of the value, and leaves
/// every other bit — the SION bit included — exactly as it was.
pub proof fn lemma_alternate_word_effect(w: u32, alt: u32)
    ensures
        alternate_word(w, alt) & ALT_MASK == alt & ALT_MASK,
        alternate_word(w, alt) & !ALT_MASK == w & !ALT_MASK,
        alternate_word(w, alt) & SION_BIT == w & SION_BIT,
{
    assert(((w & !0xFu32) | (alt & 0xF)) & 0xF == alt & 0xF) by (bit_vector);
    assert(((w & !0xFu32) | (alt & 0xF)) & !0xFu32 == w & !0xFu32) by (bit_vector);
    assert(((w & !0xFu32) | (alt & 0xF)) & 0x10 == w & 0x10) by (bit_vector);
}

/// Law: setting or clearing the SION bit touches no other bit of the
/// multiplexer word; either operation applied twice is the same as applied
/// once; and a set-then-clear pair lands on the same word as a clear alone,
/// a clear-then-set pair on the same word as a set alone. In particular a
/// word whose SION bit is clear comes back unchanged from set-then-clear,
/// and one whose SION bit is set comes back unchanged from clear-then-set.
pub proof fn lemma_sion_word_effect(w: u32)
    ensures
        sion_set_word(w) & !SION_BIT == w & !SION_BIT,
        sion_clear_word(w) & !SION_BIT == w & !SION_BIT,
        sion_set_word(w) & SION_BIT == SION_BIT,
        sion_clear_word(w) & SION_BIT == 0,
        sion_set_word(sion_set_word(w)) == sion_set_word(w),
        sion_clear_word(sion_clear_word(w)) == sion_clear_word(w),
        sion_clear_word(sion_set_word(w)) == sion_clear_word(w),
        sion_set_word(sion_clear_word(w)) == sion_set_word(w),
        w & SION_BIT == 0 ==> sion_clear_word(sion_set_word(w)) == w,
        w & SION_BIT == SION_BIT ==> sion_set_word(sion_clear_word(w)) == w,
{
    assert((w | 0x10) & !0x10u32 == w & !0x10u32) by (bit_vector);
    assert((w & !0x10u32) & !0x10u32 == w & !0x10u32) by (bit_vector);
    assert((w | 0x10) & 0x10 == 0x10u32) by (bit_vector);
    assert((w & !0x10u32) & 0x10 == 0u32) by (bit_vector);
    assert((w | 0x10) | 0x10 == w | 0x10) by (bit_vector);
    assert((w & !0x10u32) | 0x10 == w | 0x10) by (bit_vector);
    assert(w & 0x10 == 0 ==> (w | 0x10) & !0x10u32 == w) by (bit_vector);
    assert(w & 0x10 == 0x10 ==> (w & !0x10u32) | 0x10 == w) by (bit_vector);
}

/// Sets the SION bit in a pad's multiplexer register by one
/// read-modify-write, leaving every other bit of the word and every other
/// register unchanged.
///
/// The read and the write are not one atomic access: the exclusive
/// ownership of `pad` is what keeps another mutator from slipping between
/// them.
pub fn set_sion<I: Iomuxc>(pad: &mut I, mem: &mut RegisterMemory)
    requires
        old(pad).addressable(),
    ensures
        *final(pad) == *old(pad),
        final(mem)@ == old(mem)@.push(
            (old(pad).mux_addr(), sion_set_word(old(mem).word(old(pad).mux_addr()))),
        ),
        final(mem).word(old(pad).mux_addr()) == sion_set_word(old(mem).word(old(pad).mux_addr())),
        forall|a: usize| a != old(pad).mux_addr() ==> final(mem).word(a) == old(mem).word(a),
{
    let addr = pad.mux();
    let w = mem.read(addr);
    mem.write(addr, w | SION_BIT);
}

/// Clears the SION bit in a pad's multiplexer register by one
/// read-modify-write, leaving every other bit of the word and every other
/// register unchanged.
///
/// The read and the write are not one atomic access: the exclusive
/// ownership of `pad` is what keeps another mutator from slipping between
/// them.
pub fn clear_sion<I: Iomuxc>(pad: &mut I, mem: &mut RegisterMemory)
    requires
        old(pad).addressable(),
    ensures
        *final(pad) == *old(pad),
        final(mem)@ == old(mem)@.push(
            (old(pad).mux_addr(), sion_clear_word(old(mem).word(old(pad).mux_addr()))),
        ),
        final(mem).word(old(pad).mux_addr()) == sion_clear_word(
            old(mem).word(old(pad).mux_addr()),
        ),
        forall|a: usize| a != old(pad).mux_addr() ==> final(mem).word(a) == old(mem).word(a),
{
    let addr = pad.mux();
    let w = mem.read(addr);
    mem.write(addr, w & !SION_BIT);
}

/// Sets the alternate-function value of a pad's multiplexer register by one
/// read-modify-write: the low four bits become `alt & 0xF`, and every other
/// bit of the word — the SION bit included — and every other register stay
/// unchanged. Values of `alt` above 15 are truncated to the field width,
/// not rejected.
///
/// The read and the write are not one atomic access: the exclusive
/// ownership of `pad` is what keeps another mutator from slipping between
/// them.
pub fn alternate<I: Iomuxc>(pad: &mut I, alt: u32, mem: &mut RegisterMemory)
    requires
        old(pad).addressable(),
    ensures
        *final(pad) == *old(pad),
        final(mem)@ == old(mem)@.push(
            (old(pad).mux_addr(), alternate_word(old(mem).word(old(pad).mux_addr()), alt)),
        ),
        final(mem).word(old(pad).mux_addr()) == alternate_word(
            old(mem).word(old(pad).mux_addr()),
            alt,
        ),
        forall|a: usize| a != old(pad).mux_addr() ==> final(mem).word(a) == old(mem).word(a),
{
    let addr = pad.mux();
    let w = mem.read(addr);
    mem.write(addr, (w & !ALT_MASK) | (alt & ALT_MASK));
}

/// Writes an encoded electrical configuration to a pad's configuration
/// register.
///
/// `config_word` is the packed word a chip-specific encoder produced from
/// the abstract drive-strength, speed, slew, pull and open-drain settings;
/// this crate writes it verbatim. Unlike the multiplexer operations this is
/// a plain full-word write, not a read-modify-write: the configuration
/// register is owned whole by its pad, so reserved bits take the encoder's
/// defaults.
pub fn configure<I: Iomuxc>(pad: &mut I, config_word: u32, mem: &mut RegisterMemory)
    requires
        old(pad).addressable(),
    ensures
        *final(pad) == *old(pad),
        final(mem)@ == old(mem)@.push((old(pad).pad_addr(), config_word)),
        final(mem).word(old(pad).pad_addr()) == config_word,
        forall|a: usize| a != old(pad).pad_addr() ==> final(mem).word(a) == old(mem).word(a),
{
    let addr = pad.pad();
    mem.write(addr, config_word);
}

/// A daisy selection: the choice of which candidate pad feeds a given
/// peripheral input signal.
///
/// A `Daisy` is an immutable (register address, value) pair, built once per
/// pad/peripheral-role combination in a chip-definition table. Committing
/// it with [`Daisy::write`] is the only operation; there is no way to read
/// the current selection back, so the table is the single source of truth
/// for what was intended.
#[derive(Clone, Copy, PartialEq, Eq, Structural, Debug)]
pub struct Daisy {
    reg: usize,
    value: u32,
}

impl Daisy {
    /// The address of the daisy-select register this selection writes.
    pub closed spec fn reg_spec(&self) -> usize {
        self.reg
    }

    /// The value this selection writes.
    pub closed spec fn value_spec(&self) -> u32 {
        self.value
    }

    /// Creates a selection that, when committed, will write `value` into
    /// the register at `reg`.
    pub fn new(reg: usize, value: u32) -> (d: Daisy)
        ensures
            d.reg_spec() == reg,
            d.value_spec() == value,
    {
        Daisy { reg, value }
    }

    /// Commits this selection: one unconditional full-word write of the
    /// value to the register, touching no other address. There is no read
    /// and no merge — the daisy-select register holds this one field.
    pub fn write(self, mem: &mut RegisterMemory)
        ensures
            final(mem)@ == old(mem)@.push((self.reg_spec(), self.value_spec())),
            final(mem).word(self.reg_spec()) == self.value_spec(),
            forall|a: usize| a != self.reg_spec() ==> final(mem).word(a) == old(mem).word(a),
    {
        mem.write(self.reg, self.value);
    }
}

} // verus!

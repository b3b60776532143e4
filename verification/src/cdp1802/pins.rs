//! The CDP1802 pin bundle: a packed 64-bit word with named accessors.
//!
//! The default value drives every line high, mirroring the hardware's
//! pulled-up lines; negated lines are active-low.

use vstd::prelude::*;

use crate::bits;

verus! {

pub const PIN_BUS0: u8 = 0;
pub const PIN_MA0: u8 = 8;
pub const PIN_N0: u8 = 16;
pub const PIN_N2: u8 = 18;
pub const PIN_Q: u8 = 19;
pub const PIN_MRD: u8 = 20;
pub const PIN_MWR: u8 = 21;
pub const PIN_TPB: u8 = 22;
pub const PIN_TPA: u8 = 23;
pub const PIN_SC0: u8 = 24;
pub const PIN_SC1: u8 = 25;
pub const PIN_DMA_IN: u8 = 26;
pub const PIN_DMA_OUT: u8 = 27;
pub const PIN_INTR: u8 = 28;
pub const PIN_EF1: u8 = 29;
pub const PIN_EF2: u8 = 30;
pub const PIN_EF3: u8 = 31;
pub const PIN_EF4: u8 = 32;
pub const PIN_CLEAR: u8 = 33;
pub const PIN_WAIT: u8 = 34;

/// The CDP1802's pins, in bit order from least significant.
#[derive(Debug, Clone, Copy, PartialEq, Eq, Structural)]
pub enum Pin {
    // in/out
    Bus0,
    Bus1,
    Bus2,
    Bus3,
    Bus4,
    Bus5,
    Bus6,
    Bus7,
    // out
    Ma0,
    Ma1,
    Ma2,
    Ma3,
    Ma4,
    Ma5,
    Ma6,
    Ma7,
    N0,
    N1,
    N2,
    Q,
    Mrd,  // negated
    Mwr,  // negated
    Tpb,
    Tpa,
    Sc0,
    Sc1,
    // in (negated)
    DmaIn,
    DmaOut,
    Intr,
    Ef1,
    Ef2,
    Ef3,
    Ef4,
    Clear,
    Wait,
}

impl Pin {
    pub open spec fn spec_offset(self) -> u8 {
        match self {
            Pin::Bus0 => 0,
            Pin::Bus1 => 1,
            Pin::Bus2 => 2,
            Pin::Bus3 => 3,
            Pin::Bus4 => 4,
            Pin::Bus5 => 5,
            Pin::Bus6 => 6,
            Pin::Bus7 => 7,
            Pin::Ma0 => 8,
            Pin::Ma1 => 9,
            Pin::Ma2 => 10,
            Pin::Ma3 => 11,
            Pin::Ma4 => 12,
            Pin::Ma5 => 13,
            Pin::Ma6 => 14,
            Pin::Ma7 => 15,
            Pin::N0 => 16,
            Pin::N1 => 17,
            Pin::N2 => 18,
            Pin::Q => 19,
            Pin::Mrd => 20,
            Pin::Mwr => 21,
            Pin::Tpb => 22,
            Pin::Tpa => 23,
            Pin::Sc0 => 24,
            Pin::Sc1 => 25,
            Pin::DmaIn => 26,
            Pin::DmaOut => 27,
            Pin::Intr => 28,
            Pin::Ef1 => 29,
            Pin::Ef2 => 30,
            Pin::Ef3 => 31,
            Pin::Ef4 => 32,
            Pin::Clear => 33,
            Pin::Wait => 34,
        }
    }

    /// The bit position of this pin within the packed word.
    #[verifier::when_used_as_spec(spec_offset)]
    pub fn offset(self) -> (r: u8)
        ensures
            r == self.spec_offset(),
    {
        match self {
            Pin::Bus0 => 0,
            Pin::Bus1 => 1,
            Pin::Bus2 => 2,
            Pin::Bus3 => 3,
            Pin::Bus4 => 4,
            Pin::Bus5 => 5,
            Pin::Bus6 => 6,
            Pin::Bus7 => 7,
            Pin::Ma0 => 8,
            Pin::Ma1 => 9,
            Pin::Ma2 => 10,
            Pin::Ma3 => 11,
            Pin::Ma4 => 12,
            Pin::Ma5 => 13,
            Pin::Ma6 => 14,
            Pin::Ma7 => 15,
            Pin::N0 => 16,
            Pin::N1 => 17,
            Pin::N2 => 18,
            Pin::Q => 19,
            Pin::Mrd => 20,
            Pin::Mwr => 21,
            Pin::Tpb => 22,
            Pin::Tpa => 23,
            Pin::Sc0 => 24,
            Pin::Sc1 => 25,
            Pin::DmaIn => 26,
            Pin::DmaOut => 27,
            Pin::Intr => 28,
            Pin::Ef1 => 29,
            Pin::Ef2 => 30,
            Pin::Ef3 => 31,
            Pin::Ef4 => 32,
            Pin::Clear => 33,
            Pin::Wait => 34,
        }
    }
}

/// The shared CDP1802 pin bundle.
#[derive(Debug, Clone, Copy, PartialEq, Eq, Structural)]
pub struct Cdp1802Pins(pub u64);

impl Default for Cdp1802Pins {
    /// All pins high: the inactive level of the pulled-up lines.
    fn default() -> (r: Self)
        ensures
            r.0 == 0x7_ffff_ffffu64,
    {
        Cdp1802Pins(0x7_ffff_ffffu64)
    }
}

impl Cdp1802Pins {
    /// The mask of the bidirectional data bus lines.
    pub fn mask_bus() -> (r: u64)
        ensures
            r == 0xffu64,
    {
        0xff
    }

    /// The mask of every CPU-driven line, the data bus included.
    pub fn mask_bus_out() -> (r: u64)
        ensures
            r == 0x3ff_ffffu64,
    {
        0x3ff_ffff
    }

    /// The mask of every pin in the bundle.
    pub fn mask_all() -> (r: u64)
        ensures
            r == 0x7_ffff_ffffu64,
    {
        0x7_ffff_ffff
    }

    /// The mask of the CPU-driven lines other than the data bus.
    pub fn mask_out() -> (r: u64)
        ensures
            r == 0x3ff_ff00u64,
    {
        0x3ff_ff00
    }

    /// The mask of the input lines, the data bus included.
    pub fn mask_in() -> (r: u64)
        ensures
            r == 0x7_fc00_00ffu64,
    {
        0x7_fc00_00ff
    }

    pub open spec fn spec_as_u64(self) -> u64 {
        self.0
    }

    #[verifier::when_used_as_spec(spec_as_u64)]
    pub fn as_u64(self) -> (r: u64)
        ensures
            r == self.0,
    {
        self.0
    }

    /// Overlay the bits of `other` selected by `mask` onto these pins.
    pub open spec fn spec_set_masked(self, other: Cdp1802Pins, mask: u64) -> Cdp1802Pins {
        Cdp1802Pins((self.0 & !mask) | (other.0 & mask))
    }

    pub fn set_masked(&mut self, other: Cdp1802Pins, mask: u64)
        ensures
            *final(self) == old(self).spec_set_masked(other, mask),
    {
        self.0 = (self.0 & !mask) | (other.0 & mask);
    }

    pub open spec fn spec_get_bus(self) -> u8 {
        bits::spec_get(self.0, PIN_BUS0 as u64, 0xff) as u8
    }

    #[verifier::when_used_as_spec(spec_get_bus)]
    pub fn get_bus(self) -> (r: u8)
        ensures
            r == self.spec_get_bus(),
    {
        bits::get_8(self.0, PIN_BUS0)
    }

    pub open spec fn spec_get_ma(self) -> u8 {
        bits::spec_get(self.0, PIN_MA0 as u64, 0xff) as u8
    }

    #[verifier::when_used_as_spec(spec_get_ma)]
    pub fn get_ma(self) -> (r: u8)
        ensures
            r == self.spec_get_ma(),
    {
        bits::get_8(self.0, PIN_MA0)
    }

    pub open spec fn spec_get_n(self) -> u8 {
        bits::spec_get(self.0, PIN_N0 as u64, 0x7) as u8
    }

    #[verifier::when_used_as_spec(spec_get_n)]
    pub fn get_n(self) -> (r: u8)
        ensures
            r == self.spec_get_n(),
    {
        bits::get_3(self.0, PIN_N0)
    }

    pub open spec fn spec_get_n2(self) -> bool {
        bits::spec_get_1(self.0, PIN_N2 as u64)
    }

    #[verifier::when_used_as_spec(spec_get_n2)]
    pub fn get_n2(self) -> (r: bool)
        ensures
            r == self.spec_get_n2(),
    {
        bits::get_1(self.0, PIN_N2)
    }

    pub open spec fn spec_get_q(self) -> bool {
        bits::spec_get_1(self.0, PIN_Q as u64)
    }

    #[verifier::when_used_as_spec(spec_get_q)]
    pub fn get_q(self) -> (r: bool)
        ensures
            r == self.spec_get_q(),
    {
        bits::get_1(self.0, PIN_Q)
    }

    /// The four external flags, EF1 in the least significant bit.
    pub open spec fn spec_get_ef(self) -> u8 {
        bits::spec_get(self.0, PIN_EF1 as u64, 0xf) as u8
    }

    #[verifier::when_used_as_spec(spec_get_ef)]
    pub fn get_ef(self) -> (r: u8)
        ensures
            r == self.spec_get_ef(),
    {
        bits::get_4(self.0, PIN_EF1)
    }

    pub open spec fn spec_get_ef1(self) -> bool {
        bits::spec_get_1(self.0, PIN_EF1 as u64)
    }

    #[verifier::when_used_as_spec(spec_get_ef1)]
    pub fn get_ef1(self) -> (r: bool)
        ensures
            r == self.spec_get_ef1(),
    {
        bits::get_1(self.0, PIN_EF1)
    }

    pub open spec fn spec_get_ef2(self) -> bool {
        bits::spec_get_1(self.0, PIN_EF2 as u64)
    }

    #[verifier::when_used_as_spec(spec_get_ef2)]
    pub fn get_ef2(self) -> (r: bool)
        ensures
            r == self.spec_get_ef2(),
    {
        bits::get_1(self.0, PIN_EF2)
    }

    pub open spec fn spec_get_ef3(self) -> bool {
        bits::spec_get_1(self.0, PIN_EF3 as u64)
    }

    #[verifier::when_used_as_spec(spec_get_ef3)]
    pub fn get_ef3(self) -> (r: bool)
        ensures
            r == self.spec_get_ef3(),
    {
        bits::get_1(self.0, PIN_EF3)
    }

    pub open spec fn spec_get_ef4(self) -> bool {
        bits::spec_get_1(self.0, PIN_EF4 as u64)
    }

    #[verifier::when_used_as_spec(spec_get_ef4)]
    pub fn get_ef4(self) -> (r: bool)
        ensures
            r == self.spec_get_ef4(),
    {
        bits::get_1(self.0, PIN_EF4)
    }

    pub open spec fn spec_get_mrd(self) -> bool {
        bits::spec_get_1(self.0, PIN_MRD as u64)
    }

    #[verifier::when_used_as_spec(spec_get_mrd)]
    pub fn get_mrd(self) -> (r: bool)
        ensures
            r == self.spec_get_mrd(),
    {
        bits::get_1(self.0, PIN_MRD)
    }

    pub open spec fn spec_get_mwr(self) -> bool {
        bits::spec_get_1(self.0, PIN_MWR as u64)
    }

    #[verifier::when_used_as_spec(spec_get_mwr)]
    pub fn get_mwr(self) -> (r: bool)
        ensures
            r == self.spec_get_mwr(),
    {
        bits::get_1(self.0, PIN_MWR)
    }

    pub open spec fn spec_get_tpa(self) -> bool {
        bits::spec_get_1(self.0, PIN_TPA as u64)
    }

    #[verifier::when_used_as_spec(spec_get_tpa)]
    pub fn get_tpa(self) -> (r: bool)
        ensures
            r == self.spec_get_tpa(),
    {
        bits::get_1(self.0, PIN_TPA)
    }

    pub open spec fn spec_get_tpb(self) -> bool {
        bits::spec_get_1(self.0, PIN_TPB as u64)
    }

    #[verifier::when_used_as_spec(spec_get_tpb)]
    pub fn get_tpb(self) -> (r: bool)
        ensures
            r == self.spec_get_tpb(),
    {
        bits::get_1(self.0, PIN_TPB)
    }

    pub open spec fn spec_get_dma_in(self) -> bool {
        bits::spec_get_1(self.0, PIN_DMA_IN as u64)
    }

    #[verifier::when_used_as_spec(spec_get_dma_in)]
    pub fn get_dma_in(self) -> (r: bool)
        ensures
            r == self.spec_get_dma_in(),
    {
        bits::get_1(self.0, PIN_DMA_IN)
    }

    pub open spec fn spec_get_dma_out(self) -> bool {
        bits::spec_get_1(self.0, PIN_DMA_OUT as u64)
    }

    #[verifier::when_used_as_spec(spec_get_dma_out)]
    pub fn get_dma_out(self) -> (r: bool)
        ensures
            r == self.spec_get_dma_out(),
    {
        bits::get_1(self.0, PIN_DMA_OUT)
    }

    pub open spec fn spec_get_intr(self) -> bool {
        bits::spec_get_1(self.0, PIN_INTR as u64)
    }

    #[verifier::when_used_as_spec(spec_get_intr)]
    pub fn get_intr(self) -> (r: bool)
        ensures
            r == self.spec_get_intr(),
    {
        bits::get_1(self.0, PIN_INTR)
    }

    pub open spec fn spec_get_sc(self) -> u8 {
        bits::spec_get(self.0, PIN_SC0 as u64, 0x3) as u8
    }

    #[verifier::when_used_as_spec(spec_get_sc)]
    pub fn get_sc(self) -> (r: u8)
        ensures
            r == self.spec_get_sc(),
    {
        bits::get_2(self.0, PIN_SC0)
    }

    pub open spec fn spec_get_sc1(self) -> bool {
        bits::spec_get_1(self.0, PIN_SC1 as u64)
    }

    #[verifier::when_used_as_spec(spec_get_sc1)]
    pub fn get_sc1(self) -> (r: bool)
        ensures
            r == self.spec_get_sc1(),
    {
        bits::get_1(self.0, PIN_SC1)
    }

    pub open spec fn spec_get_clear(self) -> bool {
        bits::spec_get_1(self.0, PIN_CLEAR as u64)
    }

    #[verifier::when_used_as_spec(spec_get_clear)]
    pub fn get_clear(self) -> (r: bool)
        ensures
            r == self.spec_get_clear(),
    {
        bits::get_1(self.0, PIN_CLEAR)
    }

    pub open spec fn spec_get_wait(self) -> bool {
        bits::spec_get_1(self.0, PIN_WAIT as u64)
    }

    #[verifier::when_used_as_spec(spec_get_wait)]
    pub fn get_wait(self) -> (r: bool)
        ensures
            r == self.spec_get_wait(),
    {
        bits::get_1(self.0, PIN_WAIT)
    }

    pub open spec fn spec_set_bus(self, val: u8) -> Self {
        Cdp1802Pins(bits::spec_set(self.0, PIN_BUS0 as u64, 0xff, val as u64))
    }

    pub fn set_bus(&mut self, val: u8)
        ensures
            *final(self) == old(self).spec_set_bus(val),
    {
        self.0 = bits::set_8(self.0, PIN_BUS0, val);
    }

    pub open spec fn spec_set_ma(self, val: u8) -> Self {
        Cdp1802Pins(bits::spec_set(self.0, PIN_MA0 as u64, 0xff, val as u64))
    }

    pub fn set_ma(&mut self, val: u8)
        ensures
            *final(self) == old(self).spec_set_ma(val),
    {
        self.0 = bits::set_8(self.0, PIN_MA0, val);
    }

    pub open spec fn spec_set_n(self, val: u8) -> Self {
        Cdp1802Pins(bits::spec_set(self.0, PIN_N0 as u64, 0x7, val as u64))
    }

    pub fn set_n(&mut self, val: u8)
        requires
            val <= 0x7,
        ensures
            *final(self) == old(self).spec_set_n(val),
    {
        self.0 = bits::set_3(self.0, PIN_N0, val);
    }

    pub open spec fn spec_set_q(self, val: bool) -> Self {
        Cdp1802Pins(bits::spec_set_1(self.0, PIN_Q as u64, val))
    }

    pub fn set_q(&mut self, val: bool)
        ensures
            *final(self) == old(self).spec_set_q(val),
    {
        self.0 = bits::set_1(self.0, PIN_Q, val);
    }

    pub open spec fn spec_set_mrd(self, val: bool) -> Self {
        Cdp1802Pins(bits::spec_set_1(self.0, PIN_MRD as u64, val))
    }

    pub fn set_mrd(&mut self, val: bool)
        ensures
            *final(self) == old(self).spec_set_mrd(val),
    {
        self.0 = bits::set_1(self.0, PIN_MRD, val);
    }

    pub open spec fn spec_set_mwr(self, val: bool) -> Self {
        Cdp1802Pins(bits::spec_set_1(self.0, PIN_MWR as u64, val))
    }

    pub fn set_mwr(&mut self, val: bool)
        ensures
            *final(self) == old(self).spec_set_mwr(val),
    {
        self.0 = bits::set_1(self.0, PIN_MWR, val);
    }

    pub open spec fn spec_set_tpa(self, val: bool) -> Self {
        Cdp1802Pins(bits::spec_set_1(self.0, PIN_TPA as u64, val))
    }

    pub fn set_tpa(&mut self, val: bool)
        ensures
            *final(self) == old(self).spec_set_tpa(val),
    {
        self.0 = bits::set_1(self.0, PIN_TPA, val);
    }

    pub open spec fn spec_set_tpb(self, val: bool) -> Self {
        Cdp1802Pins(bits::spec_set_1(self.0, PIN_TPB as u64, val))
    }

    pub fn set_tpb(&mut self, val: bool)
        ensures
            *final(self) == old(self).spec_set_tpb(val),
    {
        self.0 = bits::set_1(self.0, PIN_TPB, val);
    }

    pub open spec fn spec_set_sc(self, val: u8) -> Self {
        Cdp1802Pins(bits::spec_set(self.0, PIN_SC0 as u64, 0x3, val as u64))
    }

    pub fn set_sc(&mut self, val: u8)
        requires
            val <= 0x3,
        ensures
            *final(self) == old(self).spec_set_sc(val),
    {
        self.0 = bits::set_2(self.0, PIN_SC0, val);
    }

    pub open spec fn spec_set_dma_in(self, val: bool) -> Self {
        Cdp1802Pins(bits::spec_set_1(self.0, PIN_DMA_IN as u64, val))
    }

    pub fn set_dma_in(&mut self, val: bool)
        ensures
            *final(self) == old(self).spec_set_dma_in(val),
    {
        self.0 = bits::set_1(self.0, PIN_DMA_IN, val);
    }

    pub open spec fn spec_set_dma_out(self, val: bool) -> Self {
        Cdp1802Pins(bits::spec_set_1(self.0, PIN_DMA_OUT as u64, val))
    }

    pub fn set_dma_out(&mut self, val: bool)
        ensures
            *final(self) == old(self).spec_set_dma_out(val),
    {
        self.0 = bits::set_1(self.0, PIN_DMA_OUT, val);
    }

    pub open spec fn spec_set_intr(self, val: bool) -> Self {
        Cdp1802Pins(bits::spec_set_1(self.0, PIN_INTR as u64, val))
    }

    pub fn set_intr(&mut self, val: bool)
        ensures
            *final(self) == old(self).spec_set_intr(val),
    {
        self.0 = bits::set_1(self.0, PIN_INTR, val);
    }

    pub open spec fn spec_set_ef1(self, val: bool) -> Self {
        Cdp1802Pins(bits::spec_set_1(self.0, PIN_EF1 as u64, val))
    }

    pub fn set_ef1(&mut self, val: bool)
        ensures
            *final(self) == old(self).spec_set_ef1(val),
    {
        self.0 = bits::set_1(self.0, PIN_EF1, val);
    }

    pub open spec fn spec_set_ef2(self, val: bool) -> Self {
        Cdp1802Pins(bits::spec_set_1(self.0, PIN_EF2 as u64, val))
    }

    pub fn set_ef2(&mut self, val: bool)
        ensures
            *final(self) == old(self).spec_set_ef2(val),
    {
        self.0 = bits::set_1(self.0, PIN_EF2, val);
    }

    pub open spec fn spec_set_ef3(self, val: bool) -> Self {
        Cdp1802Pins(bits::spec_set_1(self.0, PIN_EF3 as u64, val))
    }

    pub fn set_ef3(&mut self, val: bool)
        ensures
            *final(self) == old(self).spec_set_ef3(val),
    {
        self.0 = bits::set_1(self.0, PIN_EF3, val);
    }

    pub open spec fn spec_set_ef4(self, val: bool) -> Self {
        Cdp1802Pins(bits::spec_set_1(self.0, PIN_EF4 as u64, val))
    }

    pub fn set_ef4(&mut self, val: bool)
        ensures
            *final(self) == old(self).spec_set_ef4(val),
    {
        self.0 = bits::set_1(self.0, PIN_EF4, val);
    }

    /// Set all four external flags at once, EF1 in the least significant bit.
    pub open spec fn spec_set_ef(self, val: u8) -> Self {
        Cdp1802Pins(bits::spec_set(self.0, PIN_EF1 as u64, 0xf, val as u64))
    }

    pub fn set_ef(&mut self, val: u8)
        requires
            val <= 0xf,
        ensures
            *final(self) == old(self).spec_set_ef(val),
    {
        self.0 = bits::set_4(self.0, PIN_EF1, val);
    }

    pub open spec fn spec_set_clear(self, val: bool) -> Self {
        Cdp1802Pins(bits::spec_set_1(self.0, PIN_CLEAR as u64, val))
    }

    pub fn set_clear(&mut self, val: bool)
        ensures
            *final(self) == old(self).spec_set_clear(val),
    {
        self.0 = bits::set_1(self.0, PIN_CLEAR, val);
    }

    pub open spec fn spec_set_wait(self, val: bool) -> Self {
        Cdp1802Pins(bits::spec_set_1(self.0, PIN_WAIT as u64, val))
    }

    pub fn set_wait(&mut self, val: bool)
        ensures
            *final(self) == old(self).spec_set_wait(val),
    {
        self.0 = bits::set_1(self.0, PIN_WAIT, val);
    }
}

} // verus!

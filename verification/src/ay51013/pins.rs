//! The AY-5-1013 pin bundle: a packed 64-bit word with named accessors.
//!
//! Output pins sit in the low bits (RD1..RD8, then the status and serial
//! outputs); input pins follow from SI upward. The default drives every
//! line high. DS, RDE, SWE and RDAV are active-low.

use vstd::prelude::*;

use crate::bits;

verus! {

/// The shared AY-5-1013 pin bundle.
#[derive(Debug, Clone, Copy, PartialEq, Eq, Structural)]
pub struct Ay51013Pins(pub u64);

impl Default for Ay51013Pins {
    /// All pins high: the inactive level of the pulled-up lines.
    fn default() -> (r: Self)
        ensures
            r.0 == 0x7_ffff_ffffu64,
    {
        Ay51013Pins(0x7_ffff_ffffu64)
    }
}

impl Ay51013Pins {
    /// The mask of every pin in the bundle.
    pub fn mask_all() -> (r: u64)
        ensures
            r == 0x7_ffff_ffffu64,
    {
        0x7_ffff_ffff
    }

    /// Read buffer.
    pub open spec fn spec_get_rd(self) -> u8 {
        bits::spec_get(self.0, 0, 0xff) as u8
    }

    #[verifier::when_used_as_spec(spec_get_rd)]
    pub fn get_rd(self) -> (r: u8)
        ensures
            r == self.spec_get_rd(),
            r <= 0xff,
    {
        bits::get_8(self.0, 0)
    }

    pub open spec fn spec_set_rd(self, val: u8) -> Self {
        Ay51013Pins(bits::spec_set(self.0, 0, 0xff, val as u64))
    }

    pub fn set_rd(&mut self, val: u8)
        ensures
            *final(self) == old(self).spec_set_rd(val),
    {
        self.0 = bits::set_8(self.0, 0, val);
    }

    /// Data available.
    pub open spec fn spec_get_dav(self) -> bool {
        bits::spec_get_1(self.0, 8)
    }

    #[verifier::when_used_as_spec(spec_get_dav)]
    pub fn get_dav(self) -> (r: bool)
        ensures
            r == self.spec_get_dav(),
    {
        bits::get_1(self.0, 8)
    }

    pub open spec fn spec_set_dav(self, val: bool) -> Self {
        Ay51013Pins(bits::spec_set_1(self.0, 8, val))
    }

    pub fn set_dav(&mut self, val: bool)
        ensures
            *final(self) == old(self).spec_set_dav(val),
    {
        self.0 = bits::set_1(self.0, 8, val);
    }

    /// Parity error.
    pub open spec fn spec_get_pe(self) -> bool {
        bits::spec_get_1(self.0, 9)
    }

    #[verifier::when_used_as_spec(spec_get_pe)]
    pub fn get_pe(self) -> (r: bool)
        ensures
            r == self.spec_get_pe(),
    {
        bits::get_1(self.0, 9)
    }

    pub open spec fn spec_set_pe(self, val: bool) -> Self {
        Ay51013Pins(bits::spec_set_1(self.0, 9, val))
    }

    pub fn set_pe(&mut self, val: bool)
        ensures
            *final(self) == old(self).spec_set_pe(val),
    {
        self.0 = bits::set_1(self.0, 9, val);
    }

    /// Framing error.
    pub open spec fn spec_get_fe(self) -> bool {
        bits::spec_get_1(self.0, 10)
    }

    #[verifier::when_used_as_spec(spec_get_fe)]
    pub fn get_fe(self) -> (r: bool)
        ensures
            r == self.spec_get_fe(),
    {
        bits::get_1(self.0, 10)
    }

    pub open spec fn spec_set_fe(self, val: bool) -> Self {
        Ay51013Pins(bits::spec_set_1(self.0, 10, val))
    }

    pub fn set_fe(&mut self, val: bool)
        ensures
            *final(self) == old(self).spec_set_fe(val),
    {
        self.0 = bits::set_1(self.0, 10, val);
    }

    /// Overrun.
    pub open spec fn spec_get_or(self) -> bool {
        bits::spec_get_1(self.0, 11)
    }

    #[verifier::when_used_as_spec(spec_get_or)]
    pub fn get_or(self) -> (r: bool)
        ensures
            r == self.spec_get_or(),
    {
        bits::get_1(self.0, 11)
    }

    pub open spec fn spec_set_or(self, val: bool) -> Self {
        Ay51013Pins(bits::spec_set_1(self.0, 11, val))
    }

    pub fn set_or(&mut self, val: bool)
        ensures
            *final(self) == old(self).spec_set_or(val),
    {
        self.0 = bits::set_1(self.0, 11, val);
    }

    /// Transmit buffer empty.
    pub open spec fn spec_get_tbmt(self) -> bool {
        bits::spec_get_1(self.0, 12)
    }

    #[verifier::when_used_as_spec(spec_get_tbmt)]
    pub fn get_tbmt(self) -> (r: bool)
        ensures
            r == self.spec_get_tbmt(),
    {
        bits::get_1(self.0, 12)
    }

    pub open spec fn spec_set_tbmt(self, val: bool) -> Self {
        Ay51013Pins(bits::spec_set_1(self.0, 12, val))
    }

    pub fn set_tbmt(&mut self, val: bool)
        ensures
            *final(self) == old(self).spec_set_tbmt(val),
    {
        self.0 = bits::set_1(self.0, 12, val);
    }

    /// Transmit end of character.
    pub open spec fn spec_get_eoc(self) -> bool {
        bits::spec_get_1(self.0, 13)
    }

    #[verifier::when_used_as_spec(spec_get_eoc)]
    pub fn get_eoc(self) -> (r: bool)
        ensures
            r == self.spec_get_eoc(),
    {
        bits::get_1(self.0, 13)
    }

    pub open spec fn spec_set_eoc(self, val: bool) -> Self {
        Ay51013Pins(bits::spec_set_1(self.0, 13, val))
    }

    pub fn set_eoc(&mut self, val: bool)
        ensures
            *final(self) == old(self).spec_set_eoc(val),
    {
        self.0 = bits::set_1(self.0, 13, val);
    }

    /// Transmit output.
    pub open spec fn spec_get_so(self) -> bool {
        bits::spec_get_1(self.0, 14)
    }

    #[verifier::when_used_as_spec(spec_get_so)]
    pub fn get_so(self) -> (r: bool)
        ensures
            r == self.spec_get_so(),
    {
        bits::get_1(self.0, 14)
    }

    pub open spec fn spec_set_so(self, val: bool) -> Self {
        Ay51013Pins(bits::spec_set_1(self.0, 14, val))
    }

    pub fn set_so(&mut self, val: bool)
        ensures
            *final(self) == old(self).spec_set_so(val),
    {
        self.0 = bits::set_1(self.0, 14, val);
    }

    /// Receive input.
    pub open spec fn spec_get_si(self) -> bool {
        bits::spec_get_1(self.0, 15)
    }

    #[verifier::when_used_as_spec(spec_get_si)]
    pub fn get_si(self) -> (r: bool)
        ensures
            r == self.spec_get_si(),
    {
        bits::get_1(self.0, 15)
    }

    pub open spec fn spec_set_si(self, val: bool) -> Self {
        Ay51013Pins(bits::spec_set_1(self.0, 15, val))
    }

    pub fn set_si(&mut self, val: bool)
        ensures
            *final(self) == old(self).spec_set_si(val),
    {
        self.0 = bits::set_1(self.0, 15, val);
    }

    /// Data bits to transmit.
    pub open spec fn spec_get_db(self) -> u8 {
        bits::spec_get(self.0, 16, 0xff) as u8
    }

    #[verifier::when_used_as_spec(spec_get_db)]
    pub fn get_db(self) -> (r: u8)
        ensures
            r == self.spec_get_db(),
            r <= 0xff,
    {
        bits::get_8(self.0, 16)
    }

    pub open spec fn spec_set_db(self, val: u8) -> Self {
        Ay51013Pins(bits::spec_set(self.0, 16, 0xff, val as u64))
    }

    pub fn set_db(&mut self, val: u8)
        ensures
            *final(self) == old(self).spec_set_db(val),
    {
        self.0 = bits::set_8(self.0, 16, val);
    }

    /// Number of stop bits per character.
    pub open spec fn spec_get_tsb(self) -> bool {
        bits::spec_get_1(self.0, 24)
    }

    #[verifier::when_used_as_spec(spec_get_tsb)]
    pub fn get_tsb(self) -> (r: bool)
        ensures
            r == self.spec_get_tsb(),
    {
        bits::get_1(self.0, 24)
    }

    pub open spec fn spec_set_tsb(self, val: bool) -> Self {
        Ay51013Pins(bits::spec_set_1(self.0, 24, val))
    }

    pub fn set_tsb(&mut self, val: bool)
        ensures
            *final(self) == old(self).spec_set_tsb(val),
    {
        self.0 = bits::set_1(self.0, 24, val);
    }

    /// Parity select.
    pub open spec fn spec_get_eps(self) -> bool {
        bits::spec_get_1(self.0, 25)
    }

    #[verifier::when_used_as_spec(spec_get_eps)]
    pub fn get_eps(self) -> (r: bool)
        ensures
            r == self.spec_get_eps(),
    {
        bits::get_1(self.0, 25)
    }

    pub open spec fn spec_set_eps(self, val: bool) -> Self {
        Ay51013Pins(bits::spec_set_1(self.0, 25, val))
    }

    pub fn set_eps(&mut self, val: bool)
        ensures
            *final(self) == old(self).spec_set_eps(val),
    {
        self.0 = bits::set_1(self.0, 25, val);
    }

    /// No parity.
    pub open spec fn spec_get_np(self) -> bool {
        bits::spec_get_1(self.0, 26)
    }

    #[verifier::when_used_as_spec(spec_get_np)]
    pub fn get_np(self) -> (r: bool)
        ensures
            r == self.spec_get_np(),
    {
        bits::get_1(self.0, 26)
    }

    pub open spec fn spec_set_np(self, val: bool) -> Self {
        Ay51013Pins(bits::spec_set_1(self.0, 26, val))
    }

    pub fn set_np(&mut self, val: bool)
        ensures
            *final(self) == old(self).spec_set_np(val),
    {
        self.0 = bits::set_1(self.0, 26, val);
    }

    /// Number of bits per character.
    pub open spec fn spec_get_nb(self) -> u8 {
        bits::spec_get(self.0, 27, 0x3) as u8
    }

    #[verifier::when_used_as_spec(spec_get_nb)]
    pub fn get_nb(self) -> (r: u8)
        ensures
            r == self.spec_get_nb(),
            r <= 0x3,
    {
        bits::get_2(self.0, 27)
    }

    pub open spec fn spec_set_nb(self, val: u8) -> Self {
        Ay51013Pins(bits::spec_set(self.0, 27, 0x3, val as u64))
    }

    pub fn set_nb(&mut self, val: u8)
        requires
            val <= 0x3,
        ensures
            *final(self) == old(self).spec_set_nb(val),
    {
        self.0 = bits::set_2(self.0, 27, val);
    }

    /// Configuration strobe.
    pub open spec fn spec_get_cs(self) -> bool {
        bits::spec_get_1(self.0, 29)
    }

    #[verifier::when_used_as_spec(spec_get_cs)]
    pub fn get_cs(self) -> (r: bool)
        ensures
            r == self.spec_get_cs(),
    {
        bits::get_1(self.0, 29)
    }

    pub open spec fn spec_set_cs(self, val: bool) -> Self {
        Ay51013Pins(bits::spec_set_1(self.0, 29, val))
    }

    pub fn set_cs(&mut self, val: bool)
        ensures
            *final(self) == old(self).spec_set_cs(val),
    {
        self.0 = bits::set_1(self.0, 29, val);
    }

    /// Data strobe (negated).
    pub open spec fn spec_get_ds(self) -> bool {
        bits::spec_get_1(self.0, 30)
    }

    #[verifier::when_used_as_spec(spec_get_ds)]
    pub fn get_ds(self) -> (r: bool)
        ensures
            r == self.spec_get_ds(),
    {
        bits::get_1(self.0, 30)
    }

    pub open spec fn spec_set_ds(self, val: bool) -> Self {
        Ay51013Pins(bits::spec_set_1(self.0, 30, val))
    }

    pub fn set_ds(&mut self, val: bool)
        ensures
            *final(self) == old(self).spec_set_ds(val),
    {
        self.0 = bits::set_1(self.0, 30, val);
    }

    /// Read data bits enable (negated).
    pub open spec fn spec_get_rde(self) -> bool {
        bits::spec_get_1(self.0, 31)
    }

    #[verifier::when_used_as_spec(spec_get_rde)]
    pub fn get_rde(self) -> (r: bool)
        ensures
            r == self.spec_get_rde(),
    {
        bits::get_1(self.0, 31)
    }

    pub open spec fn spec_set_rde(self, val: bool) -> Self {
        Ay51013Pins(bits::spec_set_1(self.0, 31, val))
    }

    pub fn set_rde(&mut self, val: bool)
        ensures
            *final(self) == old(self).spec_set_rde(val),
    {
        self.0 = bits::set_1(self.0, 31, val);
    }

    /// Status word enable (negated).
    pub open spec fn spec_get_swe(self) -> bool {
        bits::spec_get_1(self.0, 32)
    }

    #[verifier::when_used_as_spec(spec_get_swe)]
    pub fn get_swe(self) -> (r: bool)
        ensures
            r == self.spec_get_swe(),
    {
        bits::get_1(self.0, 32)
    }

    pub open spec fn spec_set_swe(self, val: bool) -> Self {
        Ay51013Pins(bits::spec_set_1(self.0, 32, val))
    }

    pub fn set_swe(&mut self, val: bool)
        ensures
            *final(self) == old(self).spec_set_swe(val),
    {
        self.0 = bits::set_1(self.0, 32, val);
    }

    /// Reset DAV (negated).
    pub open spec fn spec_get_rdav(self) -> bool {
        bits::spec_get_1(self.0, 33)
    }

    #[verifier::when_used_as_spec(spec_get_rdav)]
    pub fn get_rdav(self) -> (r: bool)
        ensures
            r == self.spec_get_rdav(),
    {
        bits::get_1(self.0, 33)
    }

    pub open spec fn spec_set_rdav(self, val: bool) -> Self {
        Ay51013Pins(bits::spec_set_1(self.0, 33, val))
    }

    pub fn set_rdav(&mut self, val: bool)
        ensures
            *final(self) == old(self).spec_set_rdav(val),
    {
        self.0 = bits::set_1(self.0, 33, val);
    }

    /// External reset.
    pub open spec fn spec_get_xr(self) -> bool {
        bits::spec_get_1(self.0, 34)
    }

    #[verifier::when_used_as_spec(spec_get_xr)]
    pub fn get_xr(self) -> (r: bool)
        ensures
            r == self.spec_get_xr(),
    {
        bits::get_1(self.0, 34)
    }

    pub open spec fn spec_set_xr(self, val: bool) -> Self {
        Ay51013Pins(bits::spec_set_1(self.0, 34, val))
    }

    pub fn set_xr(&mut self, val: bool)
        ensures
            *final(self) == old(self).spec_set_xr(val),
    {
        self.0 = bits::set_1(self.0, 34, val);
    }

}

} // verus!

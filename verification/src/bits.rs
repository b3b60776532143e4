//! Packed bit and byte accessors over a 64-bit word representing a pin bundle.
//!
//! Setting a slice clears the target bits and ORs in the new value, leaving
//! all untouched bits unchanged.

use vstd::prelude::*;

verus! {

/// The single bit of `pins` at position `bit`.
pub open spec fn spec_get_1(pins: u64, bit: u64) -> bool {
    pins & (1u64 << bit) != 0
}

/// `pins` with the bit at position `bit` replaced by `val`.
pub open spec fn spec_set_1(pins: u64, bit: u64, val: bool) -> u64 {
    if val {
        pins | (1u64 << bit)
    } else {
        pins & !(1u64 << bit)
    }
}

/// The `mask`-wide slice of `pins` whose least significant bit sits at `lsb`.
pub open spec fn spec_get(pins: u64, lsb: u64, mask: u64) -> u64 {
    (pins >> lsb) & mask
}

/// `pins` with the `mask`-wide slice at `lsb` replaced by `val`.
pub open spec fn spec_set(pins: u64, lsb: u64, mask: u64, val: u64) -> u64 {
    (pins & !(mask << lsb)) | (val << lsb)
}

pub fn set_1(pins: u64, bit: u8, val: bool) -> (r: u64)
    requires
        bit < 64,
    ensures
        r == spec_set_1(pins, bit as u64, val),
{
    if val {
        pins | (1u64 << (bit as u64))
    } else {
        pins & !(1u64 << (bit as u64))
    }
}

pub fn set_2(pins: u64, lsb: u8, val: u8) -> (r: u64)
    requires
        lsb < 64,
        val <= 0x3,
    ensures
        r == spec_set(pins, lsb as u64, 0x3, val as u64),
{
    (pins & !(0x3u64 << (lsb as u64))) | ((val as u64) << (lsb as u64))
}

pub fn set_3(pins: u64, lsb: u8, val: u8) -> (r: u64)
    requires
        lsb < 64,
        val <= 0x7,
    ensures
        r == spec_set(pins, lsb as u64, 0x7, val as u64),
{
    (pins & !(0x7u64 << (lsb as u64))) | ((val as u64) << (lsb as u64))
}

pub fn set_4(pins: u64, lsb: u8, val: u8) -> (r: u64)
    requires
        lsb < 64,
        val <= 0xf,
    ensures
        r == spec_set(pins, lsb as u64, 0xf, val as u64),
{
    (pins & !(0xfu64 << (lsb as u64))) | ((val as u64) << (lsb as u64))
}

pub fn set_8(pins: u64, lsb: u8, val: u8) -> (r: u64)
    requires
        lsb < 64,
    ensures
        r == spec_set(pins, lsb as u64, 0xff, val as u64),
{
    (pins & !(0xffu64 << (lsb as u64))) | ((val as u64) << (lsb as u64))
}

pub fn get_1(pins: u64, bit: u8) -> (r: bool)
    requires
        bit < 64,
    ensures
        r == spec_get_1(pins, bit as u64),
{
    (pins & (1u64 << (bit as u64))) > 0
}

pub fn get_2(pins: u64, lsb: u8) -> (r: u8)
    requires
        lsb < 64,
    ensures
        r as u64 == spec_get(pins, lsb as u64, 0x3),
        r <= 0x3,
{
    let w = (pins >> (lsb as u64)) & 0x3;
    assert(w & 0x3 == w && w <= 0x3 ==> w as u8 as u64 == w) by (bit_vector);
    assert(((pins >> (lsb as u64)) & 0x3) <= 0x3) by (bit_vector);
    w as u8
}

pub fn get_3(pins: u64, lsb: u8) -> (r: u8)
    requires
        lsb < 64,
    ensures
        r as u64 == spec_get(pins, lsb as u64, 0x7),
        r <= 0x7,
{
    let w = (pins >> (lsb as u64)) & 0x7;
    assert(w <= 0x7 ==> w as u8 as u64 == w) by (bit_vector);
    assert(((pins >> (lsb as u64)) & 0x7) <= 0x7) by (bit_vector);
    w as u8
}

pub fn get_4(pins: u64, lsb: u8) -> (r: u8)
    requires
        lsb < 64,
    ensures
        r as u64 == spec_get(pins, lsb as u64, 0xf),
        r <= 0xf,
{
    let w = (pins >> (lsb as u64)) & 0xf;
    assert(w <= 0xf ==> w as u8 as u64 == w) by (bit_vector);
    assert(((pins >> (lsb as u64)) & 0xf) <= 0xf) by (bit_vector);
    w as u8
}

pub fn get_8(pins: u64, lsb: u8) -> (r: u8)
    requires
        lsb < 64,
    ensures
        r as u64 == spec_get(pins, lsb as u64, 0xff),
{
    let w = (pins >> (lsb as u64)) & 0xff;
    assert(w <= 0xff ==> w as u8 as u64 == w) by (bit_vector);
    assert(((pins >> (lsb as u64)) & 0xff) <= 0xff) by (bit_vector);
    w as u8
}

/// A slice read back from the word it was just written to returns the written
/// value, provided the slice does not run off the top of the word.
pub proof fn lemma_set_get_same(pins: u64, lsb: u64, mask: u64, val: u64)
    by (bit_vector)
    requires
        lsb < 64,
        (mask << lsb) >> lsb == mask,
        val & mask == val,
    ensures
        spec_get(spec_set(pins, lsb, mask, val), lsb, mask) == val,
{
}

/// Writing one slice leaves every disjoint slice unchanged.
#[verifier::rlimit(100)]
pub proof fn lemma_set_get_other(pins: u64, l1: u64, m1: u64, v: u64, l2: u64, m2: u64)
    by (bit_vector)
    requires
        l1 < 64,
        l2 < 64,
        v & m1 == v,
        (m1 << l1) & (m2 << l2) == 0,
    ensures
        spec_get(spec_set(pins, l1, m1, v), l2, m2) == spec_get(pins, l2, m2),
{
}

} // verus!

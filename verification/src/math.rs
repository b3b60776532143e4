//! Width-8 add and subtract primitives with the CDP1802's carry/borrow
//! conventions: the flag returned by a subtract is true when no borrow was
//! needed, matching DF = 1 after a subtract on the real chip.

use vstd::prelude::*;

verus! {

/// The value of [`add`].
pub open spec fn spec_add(x: u8, y: u8) -> (u8, bool) {
    ((((x + y) % 256) as u8), x + y >= 256)
}

/// The value of [`addc`].
pub open spec fn spec_addc(x: u8, y: u8, df: bool) -> (u8, bool) {
    let cin: int = if df { 1 } else { 0 };
    ((((x + y + cin) % 256) as u8), x + y + cin >= 256)
}

/// The value of [`sub`].
pub open spec fn spec_sub(x: u8, y: u8) -> (u8, bool) {
    ((((x - y + 256) % 256) as u8), x >= y)
}

/// The value of [`subc`].
pub open spec fn spec_subc(x: u8, y: u8, df: bool) -> (u8, bool) {
    let bin: int = if df { 1 } else { 0 };
    ((((x - y - bin + 512) % 256) as u8), x - y - bin >= 0)
}

/// Wrapping 8-bit sum; the flag is true exactly on unsigned overflow.
pub fn add(x: u8, y: u8) -> (r: (u8, bool))
    ensures
        r == spec_add(x, y),
        r.0 == (x + y) % 256,
        r.1 == (x + y >= 256),
{
    let z = x.wrapping_add(y);
    (z, z < x)
}

/// Two-stage add with carry-in; the flag is the OR of the two stage carries.
pub fn addc(x: u8, y: u8, df: bool) -> (r: (u8, bool))
    ensures
        r == spec_addc(x, y, df),
        r.0 == (x + y + (if df { 1int } else { 0int })) % 256,
        r.1 == (x + y + (if df { 1int } else { 0int }) >= 256),
{
    let (acc, df1) = crate::math::add(x, y);
    let (acc, df2) = crate::math::add(acc, if df { 1 } else { 0 });
    (acc, df1 || df2)
}

/// Wrapping 8-bit difference; the flag is true exactly when no borrow was
/// needed, that is when `x >= y`.
pub fn sub(x: u8, y: u8) -> (r: (u8, bool))
    ensures
        r == spec_sub(x, y),
        r.0 == (x - y + 256) % 256,
        r.1 == (x >= y),
{
    let z = x.wrapping_sub(y);
    (z, x >= y)
}

/// Two-stage subtract with borrow-in, under the same no-borrow convention.
pub fn subc(x: u8, y: u8, df: bool) -> (r: (u8, bool))
    ensures
        r == spec_subc(x, y, df),
        r.0 == (x - y - (if df { 1int } else { 0int }) + 512) % 256,
        r.1 == (x - y - (if df { 1int } else { 0int }) >= 0),
{
    let (acc, df1) = crate::math::sub(x, y);
    let (acc, df2) = crate::math::sub(acc, if df { 1 } else { 0 });
    (acc, df1 && df2)
}

} // verus!

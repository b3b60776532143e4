//! Pseudorandom construction inputs for registers and memory, used by tests
//! that must not rely on zero defaults.

use vstd::prelude::*;

verus! {

/// Relies on rand::random: a uniformly drawn byte; nothing is promised of it.
#[verifier::external_body]
pub(crate) fn random_u8() -> u8 {
    rand::random()
}

/// Relies on rand::random: a uniformly drawn 16-bit value.
#[verifier::external_body]
pub(crate) fn random_u16() -> u16 {
    rand::random()
}

/// Relies on rand::random: a uniformly drawn 64-bit value.
#[verifier::external_body]
pub(crate) fn random_u64() -> u64 {
    rand::random()
}

/// Relies on rand::random: a uniformly drawn boolean.
#[verifier::external_body]
pub(crate) fn random_bool() -> bool {
    rand::random()
}

/// Relies on rand::random_range: a value drawn from `0..n`, which the
/// documentation promises lies in that range; an empty range panics, so it
/// is excluded.
#[verifier::external_body]
pub(crate) fn random_below(n: u8) -> (r: u8)
    requires
        n > 0,
    ensures
        r < n,
{
    rand::random_range(0..n)
}

/// Relies on rand::random_iter: an endless stream of uniformly drawn bytes,
/// of which `n` are taken.
#[verifier::external_body]
pub(crate) fn random_bytes(n: usize) -> (r: Vec<u8>)
    ensures
        r@.len() == n,
{
    rand::random_iter().take(n).collect()
}

} // verus!

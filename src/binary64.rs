//! IEEE 754 binary64 values seen through their 64-bit encodings.
//!
//! A value is handled as the `u64` that holds its bits. Its class (NaN,
//! infinite, zero) and its place on the number line are read from the
//! encoding with integer arithmetic alone.

use vstd::prelude::*;

verus! {

/// The sign bit; alone, the encoding of `−0.0`.
pub const SIGN_MASK: u64 = 0x8000_0000_0000_0000;

/// `+0.0`.
pub const POS_ZERO: u64 = 0;

/// `1.0`.
pub const ONE: u64 = 0x3FF0_0000_0000_0000;

/// `+∞`. Every magnitude above it encodes a NaN.
pub const POS_INFINITY: u64 = 0x7FF0_0000_0000_0000;

/// `−∞`.
pub const NEG_INFINITY: u64 = 0xFFF0_0000_0000_0000;

/// The tolerance, in units in the last place, of the library's near-equality tests.
pub const DEFAULT_MAX_ULPS: u64 = 4;

/// The encoding with its sign bit cleared.
pub open spec fn magnitude(b: u64) -> nat {
    if b >= SIGN_MASK {
        (b - SIGN_MASK) as nat
    } else {
        b as nat
    }
}

pub open spec fn sign_negative(b: u64) -> bool {
    b >= SIGN_MASK
}

pub open spec fn nan(b: u64) -> bool {
    magnitude(b) > POS_INFINITY
}

pub open spec fn infinite(b: u64) -> bool {
    magnitude(b) == POS_INFINITY
}

/// The place of a non-NaN value on the number line. Magnitudes grow with
/// their encodings, and the sign bit mirrors them around zero, so for values
/// that are not NaN the order of the keys is the order of the numbers; `+0`
/// and `−0` share the key 0. Two neighbouring values differ by one key, one
/// unit in the last place.
pub open spec fn key(b: u64) -> int {
    if sign_negative(b) {
        -(magnitude(b) as int)
    } else {
        magnitude(b) as int
    }
}

/// `a < b` as IEEE 754 compares: false when either side is NaN.
pub open spec fn less(a: u64, b: u64) -> bool {
    !nan(a) && !nan(b) && key(a) < key(b)
}

/// `a <= b` as IEEE 754 compares: false when either side is NaN.
pub open spec fn less_eq(a: u64, b: u64) -> bool {
    !nan(a) && !nan(b) && key(a) <= key(b)
}

/// Neither value is NaN and they lie at most `max_ulps` units in the last
/// place apart.
pub open spec fn within_ulps(a: u64, b: u64, max_ulps: nat) -> bool {
    &&& !nan(a)
    &&& !nan(b)
    &&& key(a) - key(b) <= max_ulps
    &&& key(b) - key(a) <= max_ulps
}

pub fn magnitude_of(b: u64) -> (r: u64)
    ensures
        r == magnitude(b),
        r < SIGN_MASK,
{
    if b >= SIGN_MASK {
        b - SIGN_MASK
    } else {
        b
    }
}

pub fn is_nan(b: u64) -> (r: bool)
    ensures
        r == nan(b),
{
    magnitude_of(b) > POS_INFINITY
}

pub fn is_infinite(b: u64) -> (r: bool)
    ensures
        r == infinite(b),
{
    magnitude_of(b) == POS_INFINITY
}

pub fn key_of(b: u64) -> (r: i128)
    ensures
        r == key(b),
{
    let m = magnitude_of(b);
    if b >= SIGN_MASK {
        -(m as i128)
    } else {
        m as i128
    }
}

pub fn lt(a: u64, b: u64) -> (r: bool)
    ensures
        r == less(a, b),
{
    !is_nan(a) && !is_nan(b) && key_of(a) < key_of(b)
}

pub fn le(a: u64, b: u64) -> (r: bool)
    ensures
        r == less_eq(a, b),
{
    !is_nan(a) && !is_nan(b) && key_of(a) <= key_of(b)
}

/// Near-equality by distance between encodings.
pub fn ulps_eq(a: u64, b: u64, max_ulps: u64) -> (r: bool)
    ensures
        r == within_ulps(a, b, max_ulps as nat),
{
    if is_nan(a) || is_nan(b) {
        return false;
    }
    let d = key_of(a) - key_of(b);
    let m = max_ulps as i128;
    d <= m && -d <= m
}

} // verus!

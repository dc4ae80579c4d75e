//! Milli fixed-point arithmetic: an `i64` holds a real value scaled by 1000.

use vstd::prelude::*;

verus! {

/// Largest timestamp (seconds since the Unix epoch) the library accepts.
pub const MAX_EPOCH: i64 = 0x100_0000_0000;

/// Largest magnitude accepted for a stored metric value, in milli-units.
pub const MAX_METRIC: i64 = 2_000_000_000_000_000;

/// Largest magnitude accepted for a fractal parameter that enters
/// arithmetic (mutation strength, auto-mutate speed), in milli-units.
pub const MAX_PARAM: i64 = 100_000_000;

pub open spec fn valid_ts(t: int) -> bool {
    0 <= t <= MAX_EPOCH
}

pub open spec fn spec_clamp(v: int, lo: int, hi: int) -> int {
    if v < lo {
        lo
    } else if v > hi {
        hi
    } else {
        v
    }
}

/// Truncating division (rounds toward zero), as the `/` of the running code.
pub open spec fn tdiv(a: int, b: int) -> int
    recommends
        b > 0,
{
    if a >= 0 {
        a / b
    } else {
        -((-a) / b)
    }
}

pub fn clamp_i64(v: i64, lo: i64, hi: i64) -> (r: i64)
    requires
        lo <= hi,
    ensures
        r == spec_clamp(v as int, lo as int, hi as int),
{
    if v < lo {
        lo
    } else if v > hi {
        hi
    } else {
        v
    }
}

pub fn div_trunc(a: i64, b: i64) -> (r: i64)
    requires
        b > 0,
        a != i64::MIN,
    ensures
        r == tdiv(a as int, b as int),
{
    if a >= 0 {
        a / b
    } else {
        -((-a) / b)
    }
}

pub fn min_i64(a: i64, b: i64) -> (r: i64)
    ensures
        r == vstd::math::min(a as int, b as int),
{
    if a < b {
        a
    } else {
        b
    }
}

} // verus!

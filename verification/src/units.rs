//! Fixed-point quantities.
//!
//! Time is counted in microseconds, velocity in millionths of a pixel per
//! second, and position in millionths of that again, so that a velocity
//! times a time is a displacement with no division and no rounding.
//! A sum that leaves the range of `i64` stays at the end of the range it
//! left by.

use vstd::prelude::*;

verus! {

/// Microseconds in a second.
pub const MICROS_PER_SECOND: u64 = 1_000_000;

/// Velocity units in one pixel per second.
pub const PIXEL_PER_SECOND: i64 = 1_000_000;

/// Position units in one pixel.
pub const PIXEL: i64 = 1_000_000_000_000;

/// Width of the playing field, 1280 pixels.
pub const SCREEN_WIDTH: i64 = 1_280_000_000_000_000;

/// Height of the playing field, 720 pixels.
pub const SCREEN_HEIGHT: i64 = 720_000_000_000_000;

/// The value of `i64` nearest to `v`.
pub open spec fn clamp(v: int) -> int {
    if v < i64::MIN {
        i64::MIN as int
    } else if v > i64::MAX {
        i64::MAX as int
    } else {
        v
    }
}

/// Where a quantity `value` stands after changing at `rate` for `dt`
/// microseconds.
pub open spec fn advanced(value: int, rate: int, dt: int) -> int {
    clamp(value + rate * dt)
}

/// Brings a wide intermediate result back into `i64`.
pub fn saturate(v: i128) -> (r: i64)
    ensures
        r == clamp(v as int),
{
    if v < i64::MIN as i128 {
        i64::MIN
    } else if v > i64::MAX as i128 {
        i64::MAX
    } else {
        v as i64
    }
}

/// The product of a rate and a frame time is bounded well inside `i128`.
pub proof fn lemma_rate_times_dt_bounded(rate: int, dt: int)
    by (nonlinear_arith)
    requires
        -0x4000_0000_0000_0000_0000 <= rate <= 0x4000_0000_0000_0000_0000,
        0 <= dt <= 0xffff_ffff,
    ensures
        -0x4000_0000_0000_0000_0000_0000_0000 <= rate * dt <= 0x4000_0000_0000_0000_0000_0000_0000,
{
}

/// `value + rate * dt`, saturated.
pub fn advance(value: i64, rate: i64, dt: u32) -> (r: i64)
    ensures
        r == advanced(value as int, rate as int, dt as int),
{
    proof {
        lemma_rate_times_dt_bounded(rate as int, dt as int);
    }
    let step: i128 = (rate as i128) * (dt as i128);
    saturate(value as i128 + step)
}

/// A pair of coordinates: a position, a velocity or an extent.
#[derive(Clone, Copy, Debug, PartialEq, Eq, Structural)]
pub struct Vec2 {
    pub x: i64,
    pub y: i64,
}

impl Vec2 {
    pub fn new(x: i64, y: i64) -> (v: Vec2)
        ensures
            v == (Vec2 { x, y }),
    {
        Vec2 { x, y }
    }
}

} // verus!

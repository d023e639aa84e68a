use vstd::prelude::*;

verus! {

/// Sub-pixel steps in one pixel.
pub const SUBPIXELS: i64 = 1000;

/// Side of one world tile, in pixels.
pub const TILE_SIZE: i64 = 32;

/// Microseconds in one second.
pub const MICROS_PER_SECOND: i64 = 1_000_000;

/// A point of the world, in sub-pixel steps.
#[derive(Clone, Copy, Debug, PartialEq, Eq, Structural)]
pub struct Position {
    pub x: i64,
    pub y: i64,
}

/// A linear velocity, in sub-pixel steps per second.
#[derive(Clone, Copy, Debug, PartialEq, Eq, Structural)]
pub struct Velocity {
    pub x: i64,
    pub y: i64,
}

/// Fixed-point scale of a surface normal: a component of `NORMAL_SCALE`
/// stands for a unit-length component.
pub const NORMAL_SCALE: i64 = 1000;

/// A surface normal, each component scaled by `NORMAL_SCALE`.
#[derive(Clone, Copy, Debug, PartialEq, Eq, Structural)]
pub struct Normal {
    pub x: i32,
    pub y: i32,
}

/// Magnitude of one quarter-step of the blend from `a` toward `b`.
///
/// A quarter of the distance, rounded away from zero, so that a nonzero
/// distance always shrinks and the blend reaches its target exactly.
pub open spec fn quarter_step(d: int) -> int {
    if d >= 0 {
        (d + 3) / 4
    } else {
        -((-d + 3) / 4)
    }
}

/// The value one blend step takes `a` to, moving a quarter of the way to `b`.
pub open spec fn blend(a: int, b: int) -> int {
    a + quarter_step(b - a)
}

/// Absolute value.
pub open spec fn abs(v: int) -> int {
    if v >= 0 {
        v
    } else {
        -v
    }
}

/// One blend step never overshoots the target and shrinks any remaining distance.
pub proof fn lemma_blend_approaches(a: int, b: int)
    ensures
        a <= b ==> a <= blend(a, b) <= b,
        b <= a ==> b <= blend(a, b) <= a,
        a != b ==> abs(b - blend(a, b)) < abs(b - a),
        a == b ==> blend(a, b) == b,
{
}

/// Moves `a` a quarter of the way toward `b`, rounding away from `a`.
pub fn lerp_quarter(a: i64, b: i64) -> (r: i64)
    ensures
        r == blend(a as int, b as int),
{
    proof {
        lemma_blend_approaches(a as int, b as int);
    }
    let d: i128 = b as i128 - a as i128;
    let step: i128 = if d >= 0 {
        (d + 3) / 4
    } else {
        -((-d + 3) / 4)
    };
    (a as i128 + step) as i64
}

/// The value `v` clamped to the range of `i64`.
pub open spec fn saturated(v: int) -> int {
    if v < i64::MIN {
        i64::MIN as int
    } else if v > i64::MAX {
        i64::MAX as int
    } else {
        v
    }
}

/// Adds two `i64` values, clamping the sum to the range of `i64`.
pub fn saturating_sum(a: i64, b: i64) -> (r: i64)
    ensures
        r == saturated(a + b),
{
    let s: i128 = a as i128 + b as i128;
    if s < i64::MIN as i128 {
        i64::MIN
    } else if s > i64::MAX as i128 {
        i64::MAX
    } else {
        s as i64
    }
}

} // verus!

//! Fixed-point scalars and 2D vector helpers shared by the whole crate.
//!
//! Quantities are `i64` micro-units: `SCALE` of them make one simulation
//! unit. The Y axis points down, as in screen coordinates, so gravity is a
//! positive Y acceleration and a jump is a negative Y impulse.

use vstd::prelude::*;

verus! {

/// Micro-units per simulation unit.
pub const SCALE: i64 = 1_000_000;

/// Steps per second of simulated time: the simulator advances by exactly
/// 1/60 s per `step`.
pub const STEPS_PER_SECOND: i64 = 60;

/// Every position and velocity component is kept inside
/// [-COORD_LIMIT, COORD_LIMIT] (one million simulation units): the bounded
/// simulation domain that makes all arithmetic overflow-free.
pub const COORD_LIMIT: i64 = 1_000_000_000_000;

/// A 2D point or vector in micro-units.
#[derive(Clone, Copy, PartialEq, Eq, Structural, Debug)]
pub struct Vec2 {
    pub x: i64,
    pub y: i64,
}

pub open spec fn in_range(x: int) -> bool {
    -COORD_LIMIT <= x <= COORD_LIMIT
}

pub open spec fn vec_in_range(v: Vec2) -> bool {
    in_range(v.x as int) && in_range(v.y as int)
}

/// Clamp to the simulation domain.
pub open spec fn clamp_spec(x: int) -> int {
    if x > COORD_LIMIT {
        COORD_LIMIT as int
    } else if x < -COORD_LIMIT {
        -COORD_LIMIT as int
    } else {
        x
    }
}

/// Division truncating toward zero, as the machine division does.
pub open spec fn trunc_div_spec(x: int, d: int) -> int
    recommends
        d > 0,
{
    if x >= 0 {
        x / d
    } else {
        -((-x) / d)
    }
}

pub open spec fn abs_spec(x: int) -> int {
    if x >= 0 {
        x
    } else {
        -x
    }
}

impl Vec2 {
    pub fn new(x: i64, y: i64) -> (r: Vec2)
        ensures
            r == (Vec2 { x, y }),
    {
        Vec2 { x, y }
    }

    pub fn zeros() -> (r: Vec2)
        ensures
            r == (Vec2 { x: 0, y: 0 }),
    {
        Vec2 { x: 0, y: 0 }
    }
}

/// Component-wise vector sum.
pub fn add(p1: Vec2, p2: Vec2) -> (r: Vec2)
    requires
        vec_in_range(p1),
        vec_in_range(p2),
    ensures
        r.x == p1.x + p2.x,
        r.y == p1.y + p2.y,
{
    Vec2 { x: p1.x + p2.x, y: p1.y + p2.y }
}

/// Component-wise vector difference.
pub fn sub(p1: Vec2, p2: Vec2) -> (r: Vec2)
    requires
        vec_in_range(p1),
        vec_in_range(p2),
    ensures
        r.x == p1.x - p2.x,
        r.y == p1.y - p2.y,
{
    Vec2 { x: p1.x - p2.x, y: p1.y - p2.y }
}

/// Clamp a scalar to the simulation domain.
pub fn clamp(x: i64) -> (r: i64)
    ensures
        r as int == clamp_spec(x as int),
{
    if x > COORD_LIMIT {
        COORD_LIMIT
    } else if x < -COORD_LIMIT {
        -COORD_LIMIT
    } else {
        x
    }
}

/// Divide by the step rate, truncating toward zero.
pub fn div_by_step_rate(x: i64) -> (r: i64)
    requires
        in_range(x as int),
    ensures
        r as int == trunc_div_spec(x as int, STEPS_PER_SECOND as int),
{
    if x >= 0 {
        x / STEPS_PER_SECOND
    } else {
        -((-x) / STEPS_PER_SECOND)
    }
}

} // verus!

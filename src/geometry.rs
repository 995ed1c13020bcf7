//! Fixed-point vectors and axis-aligned box overlap.
//!
//! Lengths are held in micro-units (a millionth of an arena unit) and time in
//! microseconds, so that a velocity in units per second times a duration in
//! microseconds is exactly a displacement in micro-units.
use vstd::prelude::*;

verus! {

/// Micro-units in one arena unit.
pub const UNIT: i64 = 1_000_000;

/// A three-component integer vector: a position in micro-units, or a
/// velocity in units per second.
#[derive(Clone, Copy, Debug, PartialEq, Eq, Structural)]
pub struct Vec3i {
    pub x: i64,
    pub y: i64,
    pub z: i64,
}

/// The width and height of an axis-aligned box, in micro-units.
#[derive(Clone, Copy, Debug, PartialEq, Eq, Structural)]
pub struct Extent {
    pub w: i64,
    pub h: i64,
}

impl Vec3i {
    pub fn new(x: i64, y: i64, z: i64) -> (r: Vec3i)
        ensures
            r == (Vec3i { x, y, z }),
    {
        Vec3i { x, y, z }
    }
}

impl Extent {
    pub fn new(w: i64, h: i64) -> (r: Extent)
        ensures
            r == (Extent { w, h }),
    {
        Extent { w, h }
    }
}

/// The closed interval `[c - s/2, c + s/2]` meets `[d - t/2, d + t/2]`,
/// stated with every bound doubled so that odd sizes stay exact.
pub open spec fn spans_meet(c: int, s: int, d: int, t: int) -> bool {
    2 * c - s <= 2 * d + t && 2 * d - t <= 2 * c + s
}

/// Two boxes, each given by its centre (only x and y count; z is the drawing
/// order) and its extent, overlap or touch on both axes.
pub open spec fn boxes_overlap(a: Vec3i, a_size: Extent, b: Vec3i, b_size: Extent) -> bool {
    spans_meet(a.x as int, a_size.w as int, b.x as int, b_size.w as int)
        && spans_meet(a.y as int, a_size.h as int, b.y as int, b_size.h as int)
}

fn spans_meet_exec(c: i64, s: i64, d: i64, t: i64) -> (r: bool)
    ensures
        r == spans_meet(c as int, s as int, d as int, t as int),
{
    let c2 = 2 * (c as i128);
    let d2 = 2 * (d as i128);
    c2 - (s as i128) <= d2 + (t as i128) && d2 - (t as i128) <= c2 + (s as i128)
}

/// Axis-aligned bounding-box test: true exactly when the two boxes overlap or
/// their edges touch, on both axes.
pub fn collide(a: Vec3i, a_size: Extent, b: Vec3i, b_size: Extent) -> (r: bool)
    ensures
        r == boxes_overlap(a, a_size, b, b_size),
{
    spans_meet_exec(a.x, a_size.w, b.x, b_size.w) && spans_meet_exec(a.y, a_size.h, b.y, b_size.h)
}

} // verus!

//! Integer plane vectors and saturating arithmetic.
//!
//! All simulation quantities (positions, velocities, forces, the gravity
//! vector) are integer-valued. Arithmetic saturates at the `i64` bounds so
//! that every operation is total and deterministic.

use vstd::prelude::*;

verus! {

/// A plane vector with integer coordinates.
#[derive(Clone, Copy, Debug, PartialEq, Eq, Structural)]
pub struct Vec2 {
    pub x: i64,
    pub y: i64,
}

/// Clip a mathematical integer to the `i64` range.
pub open spec fn clip(v: int) -> i64 {
    if v > i64::MAX {
        i64::MAX
    } else if v < i64::MIN {
        i64::MIN
    } else {
        v as i64
    }
}

/// Saturating sum of two coordinates.
pub open spec fn sat_add_spec(a: i64, b: i64) -> i64 {
    clip(a + b)
}

/// Saturating product of two coordinates.
pub open spec fn sat_mul_spec(a: i64, b: i64) -> i64 {
    clip(a * b)
}

/// Componentwise saturating vector sum.
pub open spec fn v2_add_spec(a: Vec2, b: Vec2) -> Vec2 {
    Vec2 { x: sat_add_spec(a.x, b.x), y: sat_add_spec(a.y, b.y) }
}

/// Componentwise saturating scaling of a vector.
pub open spec fn v2_scale_spec(a: Vec2, k: i64) -> Vec2 {
    Vec2 { x: sat_mul_spec(a.x, k), y: sat_mul_spec(a.y, k) }
}

/// The zero vector.
pub open spec fn v2_zero_spec() -> Vec2 {
    Vec2 { x: 0, y: 0 }
}

pub fn sat_add(a: i64, b: i64) -> (r: i64)
    ensures
        r == sat_add_spec(a, b),
{
    match a.checked_add(b) {
        Some(v) => v,
        None => {
            if b >= 0 {
                i64::MAX
            } else {
                i64::MIN
            }
        },
    }
}

pub fn sat_mul(a: i64, b: i64) -> (r: i64)
    ensures
        r == sat_mul_spec(a, b),
{
    match a.checked_mul(b) {
        Some(v) => v,
        None => {
            if (a > 0) == (b > 0) {
                proof {
                    assert(a * b > 0) by (nonlinear_arith)
                        requires
                            (a > 0 && b > 0) || (a < 0 && b < 0),
                    ;
                }
                i64::MAX
            } else {
                proof {
                    assert(a * b < 0) by (nonlinear_arith)
                        requires
                            (a > 0 && b < 0) || (a < 0 && b > 0),
                    ;
                }
                i64::MIN
            }
        },
    }
}

pub fn v2_add(a: Vec2, b: Vec2) -> (r: Vec2)
    ensures
        r == v2_add_spec(a, b),
{
    Vec2 { x: sat_add(a.x, b.x), y: sat_add(a.y, b.y) }
}

pub fn v2_scale(a: Vec2, k: i64) -> (r: Vec2)
    ensures
        r == v2_scale_spec(a, k),
{
    Vec2 { x: sat_mul(a.x, k), y: sat_mul(a.y, k) }
}

pub fn v2_zero() -> (r: Vec2)
    ensures
        r == v2_zero_spec(),
{
    Vec2 { x: 0, y: 0 }
}

} // verus!

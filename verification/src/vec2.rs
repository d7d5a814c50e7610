//! Fixed-point plane vectors.
//!
//! Continuous positions and displacements are held in integer
//! fixed-point units, `FP_ONE` units per tile, so that all geometry is
//! exact integer arithmetic.

use vstd::prelude::*;

verus! {

/// Fixed-point units per tile: a position of `FP_ONE` is one tile in.
pub const FP_ONE: i64 = 1024;

/// A 2D point or displacement in fixed-point tile units.
#[derive(Clone, Copy, PartialEq, Eq, Structural, Debug)]
pub struct Vec2 {
    pub x: i64,
    pub y: i64,
}

impl Vec2 {
    /// The zero vector.
    pub open spec fn spec_zero() -> Vec2 {
        Vec2 { x: 0, y: 0 }
    }

    /// The zero vector: no displacement.
    pub fn zero() -> (v: Vec2)
        ensures
            v == Vec2::spec_zero(),
    {
        Vec2 { x: 0, y: 0 }
    }

    /// A vector from its two components.
    pub fn new(x: i64, y: i64) -> (v: Vec2)
        ensures
            v == (Vec2 { x, y }),
    {
        Vec2 { x, y }
    }
}

} // verus!

//! The 2-D integer vector used for both positions and velocities, and the
//! renderable bounding box derived from a position.

use crate::model::{VectorModel, DIM_MAX, VEL_MAX};
use vstd::prelude::*;

verus! {

/// A 2-D vector with integer coordinates.
#[derive(Clone, Copy, Debug, PartialEq, Eq, Structural)]
pub struct Vector {
    pub x: i64,
    pub y: i64,
}

impl View for Vector {
    type V = VectorModel;

    open spec fn view(&self) -> VectorModel {
        VectorModel { x: self.x as int, y: self.y as int }
    }
}

/// A renderable bounding box: a fixed-size square anchored at a particle's
/// position, for a presentation layer to draw a sprite into.
#[derive(Clone, Copy, Debug, PartialEq, Eq, Structural)]
pub struct Rect {
    pub x: i64,
    pub y: i64,
    pub w: u64,
    pub h: u64,
}

impl Vector {
    pub fn new(x: i64, y: i64) -> (r: Vector)
        ensures
            r.x == x,
            r.y == y,
    {
        Vector { x, y }
    }

    /// Component-wise sum.
    pub fn add(self, rhs: Vector) -> (r: Vector)
        requires
            i64::MIN <= self.x + rhs.x <= i64::MAX,
            i64::MIN <= self.y + rhs.y <= i64::MAX,
        ensures
            r.x == self.x + rhs.x,
            r.y == self.y + rhs.y,
    {
        Vector { x: self.x + rhs.x, y: self.y + rhs.y }
    }

    /// Component-wise difference: `self - rhs` points from `rhs` toward
    /// `self` when both are positions.
    pub fn sub(self, rhs: Vector) -> (r: Vector)
        requires
            i64::MIN <= self.x - rhs.x <= i64::MAX,
            i64::MIN <= self.y - rhs.y <= i64::MAX,
        ensures
            r.x == self.x - rhs.x,
            r.y == self.y - rhs.y,
    {
        Vector { x: self.x - rhs.x, y: self.y - rhs.y }
    }

    /// Squared Euclidean magnitude. The engine compares distances against
    /// the interaction radius on squares, which is exact over integers.
    pub fn norm_sq(self) -> (r: i64)
        requires
            -(DIM_MAX + 2 * VEL_MAX) <= self.x <= DIM_MAX + 2 * VEL_MAX,
            -(DIM_MAX + 2 * VEL_MAX) <= self.y <= DIM_MAX + 2 * VEL_MAX,
        ensures
            r == self.x * self.x + self.y * self.y,
    {
        proof {
            assert(self.x * self.x + self.y * self.y <= 2 * 9_000_000_000_000) by (nonlinear_arith)
                requires
                    -3_000_000 <= self.x <= 3_000_000,
                    -3_000_000 <= self.y <= 3_000_000,
            ;
            assert(0 <= self.x * self.x && 0 <= self.y * self.y) by (nonlinear_arith);
        }
        self.x * self.x + self.y * self.y
    }

    /// The fixed-size 10 by 10 square anchored at this vector, taken as a
    /// position; integer coordinates need no rounding.
    pub fn to_rect(self) -> (r: Rect)
        ensures
            r.x == self.x,
            r.y == self.y,
            r.w == 10,
            r.h == 10,
    {
        Rect { x: self.x, y: self.y, w: 10, h: 10 }
    }
}

} // verus!

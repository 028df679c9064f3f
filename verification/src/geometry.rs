//! Screen positions and the vectors between them.

use vstd::prelude::*;
use crate::fixed::lemma_product_bound;

verus! {

/// A position on the touch surface, in pixels or in any finer step that the
/// viewport is measured in as well.
///
/// The origin is the top-left corner; `y` grows downward.
#[derive(Clone, Copy, Debug, PartialEq, Eq, Structural)]
pub struct Point {
    pub x: i32,
    pub y: i32,
}

/// The displacement from one position to another.
#[derive(Clone, Copy, Debug, PartialEq, Eq, Structural)]
pub struct Offset {
    pub dx: i64,
    pub dy: i64,
}

/// A vector in the plane with integer components: the mathematical value of
/// an [`Offset`].
pub struct Vector {
    pub x: int,
    pub y: int,
}

impl Vector {
    /// The vector that leads from `from` to `to`.
    pub open spec fn between(from: Point, to: Point) -> Vector {
        Vector { x: to.x - from.x, y: to.y - from.y }
    }

    /// The inner product of two vectors.
    pub open spec fn dot(self, other: Vector) -> int {
        self.x * other.x + self.y * other.y
    }

    /// The cross product of two vectors: the inner product of `other` with
    /// `self` turned by a quarter.
    pub open spec fn cross(self, other: Vector) -> int {
        self.x * other.y - self.y * other.x
    }

    /// The squared length of a vector.
    pub open spec fn norm2(self) -> int {
        self.x * self.x + self.y * self.y
    }

    /// Whether the vector has no length.
    pub open spec fn is_zero(self) -> bool {
        self.x == 0 && self.y == 0
    }

    /// Whether the vector can lead from one position to another: no
    /// component is larger than [`MAX_SPAN`].
    pub open spec fn spans(self) -> bool {
        -MAX_SPAN <= self.x <= MAX_SPAN && -MAX_SPAN <= self.y <= MAX_SPAN
    }
}

impl View for Offset {
    type V = Vector;

    open spec fn view(&self) -> Vector {
        Vector { x: self.dx as int, y: self.dy as int }
    }
}

/// The largest size that a component of the displacement between two
/// positions can have.
pub const MAX_SPAN: i64 = 0xffff_ffff;

impl Point {
    /// The displacement that leads from `from` to `self`.
    pub fn offset_from(self, from: Point) -> (d: Offset)
        ensures
            d@ == Vector::between(from, self),
            d@.spans(),
    {
        Offset { dx: self.x as i64 - from.x as i64, dy: self.y as i64 - from.y as i64 }
    }
}

impl Offset {
    /// The squared length.
    pub fn magnitude2(self) -> (r: u128)
        ensures
            r == self@.norm2(),
    {
        proof {
            lemma_product_bound(
                self.dx as int,
                self.dx as int,
                0x8000_0000_0000_0000,
                0x8000_0000_0000_0000,
            );
            lemma_product_bound(
                self.dy as int,
                self.dy as int,
                0x8000_0000_0000_0000,
                0x8000_0000_0000_0000,
            );
            assert(self.dx * self.dx >= 0 && self.dy * self.dy >= 0) by (nonlinear_arith);
        }
        let across: i128 = (self.dx as i128) * (self.dx as i128);
        let down: i128 = (self.dy as i128) * (self.dy as i128);
        across as u128 + down as u128
    }
}

} // verus!

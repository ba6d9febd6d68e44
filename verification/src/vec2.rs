//! Plane vectors over fixed-point integer coordinates.

use vstd::prelude::*;

verus! {

/// A 2D vector with integer coordinates (thousandths of a linear unit).
#[derive(Clone, Copy, Debug, PartialEq, Eq, Structural)]
pub struct Vec2 {
    pub x: i64,
    pub y: i64,
}

impl Vec2 {
    pub fn new(x: i64, y: i64) -> (r: Vec2)
        ensures
            r.x == x,
            r.y == y,
    {
        Vec2 { x, y }
    }

    pub fn zero() -> (r: Vec2)
        ensures
            r.x == 0,
            r.y == 0,
    {
        Vec2 { x: 0, y: 0 }
    }

    /// Componentwise sum.
    pub fn add(self, other: Vec2) -> (r: Vec2)
        requires
            self.x + other.x <= i64::MAX,
            self.x + other.x >= i64::MIN,
            self.y + other.y <= i64::MAX,
            self.y + other.y >= i64::MIN,
        ensures
            r.x == self.x + other.x,
            r.y == self.y + other.y,
    {
        Vec2 { x: self.x + other.x, y: self.y + other.y }
    }

    /// Componentwise difference.
    pub fn sub(self, other: Vec2) -> (r: Vec2)
        requires
            self.x - other.x <= i64::MAX,
            self.x - other.x >= i64::MIN,
            self.y - other.y <= i64::MAX,
            self.y - other.y >= i64::MIN,
        ensures
            r.x == self.x - other.x,
            r.y == self.y - other.y,
    {
        Vec2 { x: self.x - other.x, y: self.y - other.y }
    }

    /// True when both coordinates are within `bound` of zero.
    pub open spec fn bounded(self, bound: int) -> bool {
        -bound <= self.x <= bound && -bound <= self.y <= bound
    }

    /// Dot product, computed in 128-bit arithmetic so it is exact for all
    /// vectors whose coordinates fit in 60 bits.
    pub fn dot(self, other: Vec2) -> (r: i128)
        requires
            self.bounded(0x1000_0000_0000_0000),
            other.bounded(0x1000_0000_0000_0000),
        ensures
            r == self.x * other.x + self.y * other.y,
    {
        proof {
            lemma_mul_product_bound(self.x as int, other.x as int);
            lemma_mul_product_bound(self.y as int, other.y as int);
        }
        (self.x as i128) * (other.x as i128) + (self.y as i128) * (other.y as i128)
    }

    /// Squared Euclidean length, exact.
    pub fn norm_sq(self) -> (r: i128)
        requires
            self.bounded(0x1000_0000_0000_0000),
        ensures
            r == self.x * self.x + self.y * self.y,
            r >= 0,
    {
        proof {
            lemma_square_nonneg(self.x as int);
            lemma_square_nonneg(self.y as int);
        }
        self.dot(self)
    }
}

/// The product of two values that fit in 60 bits fits comfortably in 128 bits.
proof fn lemma_mul_product_bound(a: int, b: int)
    requires
        -0x1000_0000_0000_0000 <= a <= 0x1000_0000_0000_0000,
        -0x1000_0000_0000_0000 <= b <= 0x1000_0000_0000_0000,
    ensures
        a * b <= 0x100_0000_0000_0000_0000_0000_0000_0000,
        a * b >= -0x100_0000_0000_0000_0000_0000_0000_0000,
{
    assert(a * b <= 0x100_0000_0000_0000_0000_0000_0000_0000
        && a * b >= -0x100_0000_0000_0000_0000_0000_0000_0000) by (nonlinear_arith)
        requires
            -0x1000_0000_0000_0000 <= a <= 0x1000_0000_0000_0000,
            -0x1000_0000_0000_0000 <= b <= 0x1000_0000_0000_0000;
}

/// A square is never negative.
pub proof fn lemma_square_nonneg(a: int)
    ensures
        a * a >= 0,
{
    assert(a * a >= 0) by (nonlinear_arith);
}

} // verus!

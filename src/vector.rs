//! Two-dimensional integer vectors and their mathematical model.
use vstd::prelude::*;

verus! {

/// The smallest and largest values that a coordinate may hold.
pub open spec fn in_i64(x: int) -> bool {
    i64::MIN <= x <= i64::MAX
}

/// Whether a wide intermediate value can be held by an `i64`.
pub(crate) fn fits_i64(x: i128) -> (r: bool)
    ensures
        r == in_i64(x as int),
{
    i64::MIN as i128 <= x && x <= i64::MAX as i128
}

/// A point or displacement of the plane, over the mathematical integers.
pub struct Point {
    pub x: int,
    pub y: int,
}

impl Point {
    pub open spec fn add(self, o: Point) -> Point {
        Point { x: self.x + o.x, y: self.y + o.y }
    }

    pub open spec fn scale(self, k: int) -> Point {
        Point { x: self.x * k, y: self.y * k }
    }

    pub open spec fn fits(self) -> bool {
        in_i64(self.x) && in_i64(self.y)
    }
}

/// A two-dimensional vector of machine integers.
#[derive(Clone, Copy, Debug, PartialEq, Eq, Structural)]
pub struct Vector {
    pub x: i64,
    pub y: i64,
}

impl View for Vector {
    type V = Point;

    open spec fn view(&self) -> Point {
        Point { x: self.x as int, y: self.y as int }
    }
}

impl Vector {
    /// The vector `(x, y)`.
    pub fn new(x: i64, y: i64) -> (r: Vector)
        ensures
            r.x == x,
            r.y == y,
    {
        Vector { x, y }
    }

    /// The zero vector.
    pub fn zero() -> (r: Vector)
        ensures
            r@ == (Point { x: 0, y: 0 }),
    {
        Vector { x: 0, y: 0 }
    }
}

} // verus!

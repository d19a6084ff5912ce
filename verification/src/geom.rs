//! Two-dimensional fixed-point vectors and axis-aligned rectangles.

use vstd::prelude::*;

use crate::num::{abs_v, fits_i32, fx_product, tdiv, Num};

verus! {

/// A pair of fixed-point coordinates.
#[derive(Clone, Copy, Debug, PartialEq, Eq, Structural)]
pub struct Vec2 {
    pub x: Num,
    pub y: Num,
}

/// Both components of `v` have magnitude at most `m` (in raw 1/256ths).
pub open spec fn bounded(v: Vec2, m: int) -> bool {
    abs_v(v.x.raw as int) <= m && abs_v(v.y.raw as int) <= m
}

impl Vec2 {
    /// The vector with the given components.
    pub fn new(x: Num, y: Num) -> (r: Vec2)
        ensures
            r == (Vec2 { x, y }),
    {
        Vec2 { x, y }
    }

    /// The vector of two whole pixel coordinates.
    pub fn of_units(x: i32, y: i32) -> (r: Vec2)
        requires
            fits_i32(x * 256),
            fits_i32(y * 256),
        ensures
            r.x.raw == x * 256,
            r.y.raw == y * 256,
    {
        Vec2 { x: Num::new(x), y: Num::new(y) }
    }

    /// The origin.
    pub fn zero() -> (r: Vec2)
        ensures
            r.x.raw == 0,
            r.y.raw == 0,
    {
        Vec2 { x: Num::zero(), y: Num::zero() }
    }

    /// Component-wise addition.
    pub fn plus(self, o: Vec2) -> (r: Vec2)
        requires
            fits_i32(self.x.raw + o.x.raw),
            fits_i32(self.y.raw + o.y.raw),
        ensures
            r.x.raw == self.x.raw + o.x.raw,
            r.y.raw == self.y.raw + o.y.raw,
    {
        Vec2 { x: self.x.plus(o.x), y: self.y.plus(o.y) }
    }

    /// Component-wise subtraction.
    pub fn minus(self, o: Vec2) -> (r: Vec2)
        requires
            fits_i32(self.x.raw - o.x.raw),
            fits_i32(self.y.raw - o.y.raw),
        ensures
            r.x.raw == self.x.raw - o.x.raw,
            r.y.raw == self.y.raw - o.y.raw,
    {
        Vec2 { x: self.x.minus(o.x), y: self.y.minus(o.y) }
    }

    /// Multiplication of both components by the scalar `n`.
    pub fn scale(self, n: Num) -> (r: Vec2)
        requires
            fits_i32(fx_product(self.x.raw as int, n.raw as int)),
            fits_i32(fx_product(self.y.raw as int, n.raw as int)),
        ensures
            r.x.raw == fx_product(self.x.raw as int, n.raw as int),
            r.y.raw == fx_product(self.y.raw as int, n.raw as int),
    {
        Vec2 { x: self.x.times(n), y: self.y.times(n) }
    }

    /// Component-wise (Hadamard) product.
    pub fn hadamard(self, o: Vec2) -> (r: Vec2)
        requires
            fits_i32(fx_product(self.x.raw as int, o.x.raw as int)),
            fits_i32(fx_product(self.y.raw as int, o.y.raw as int)),
        ensures
            r.x.raw == fx_product(self.x.raw as int, o.x.raw as int),
            r.y.raw == fx_product(self.y.raw as int, o.y.raw as int),
    {
        Vec2 { x: self.x.times(o.x), y: self.y.times(o.y) }
    }

    /// The axes exchanged.
    pub fn swapped(self) -> (r: Vec2)
        ensures
            r.x == self.y,
            r.y == self.x,
    {
        Vec2 { x: self.y, y: self.x }
    }

    /// Both components divided by a positive whole number, rounded toward
    /// zero.
    pub fn div_int(self, k: i32) -> (r: Vec2)
        requires
            k > 0,
            self.x.raw != i32::MIN,
            self.y.raw != i32::MIN,
        ensures
            r.x.raw == tdiv(self.x.raw as int, k as int),
            r.y.raw == tdiv(self.y.raw as int, k as int),
    {
        Vec2 { x: self.x.div_int(k), y: self.y.div_int(k) }
    }

    /// The Manhattan magnitude `|x| + |y|`.
    pub fn manhattan(self) -> (r: Num)
        requires
            self.x.raw != i32::MIN,
            self.y.raw != i32::MIN,
            fits_i32(abs_v(self.x.raw as int) + abs_v(self.y.raw as int)),
        ensures
            r.raw == abs_v(self.x.raw as int) + abs_v(self.y.raw as int),
    {
        self.x.abs().plus(self.y.abs())
    }
}

/// An axis-aligned rectangle: top-left corner and extent.
#[derive(Clone, Copy, Debug, PartialEq, Eq, Structural)]
pub struct Rect {
    pub position: Vec2,
    pub size: Vec2,
}

/// Closed-interval overlap of the two rectangles: rectangles that share
/// only an edge or a corner still touch. (The engine treats boundary
/// contact as contact.)
pub open spec fn touches_v(a: Rect, b: Rect) -> bool {
    a.position.x.raw <= b.position.x.raw + b.size.x.raw
        && b.position.x.raw <= a.position.x.raw + a.size.x.raw
        && a.position.y.raw <= b.position.y.raw + b.size.y.raw
        && b.position.y.raw <= a.position.y.raw + a.size.y.raw
}

impl Rect {
    /// The rectangle with the given corner and size.
    pub fn new(position: Vec2, size: Vec2) -> (r: Rect)
        ensures
            r == (Rect { position, size }),
    {
        Rect { position, size }
    }

    /// Closed-interval overlap test.
    pub fn touches(self, o: Rect) -> (r: bool)
        requires
            fits_i32(self.position.x.raw + self.size.x.raw),
            fits_i32(self.position.y.raw + self.size.y.raw),
            fits_i32(o.position.x.raw + o.size.x.raw),
            fits_i32(o.position.y.raw + o.size.y.raw),
        ensures
            r == touches_v(self, o),
    {
        self.position.x.raw <= o.position.x.raw + o.size.x.raw
            && o.position.x.raw <= self.position.x.raw + self.size.x.raw
            && self.position.y.raw <= o.position.y.raw + o.size.y.raw
            && o.position.y.raw <= self.position.y.raw + self.size.y.raw
    }
}

} // verus!

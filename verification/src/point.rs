//! Positions in space: three fixed-point coordinates measured from the origin.

use vstd::prelude::*;
use crate::fx::Fx;
use crate::fx::clampi;
use crate::fx::fadd;
use crate::fx::fsub;
use crate::fx::fmul;
use crate::fx::fdiv;
use crate::fx::fx_eq;
use crate::vector::Vector;

verus! {

/// The vector leading from one point to another, by raw values.
pub open spec fn psub(a: Point, b: Point) -> Vector {
    crate::vector::vec_raw(
        fsub(a.x.raw as int, b.x.raw as int),
        fsub(a.y.raw as int, b.y.raw as int),
        fsub(a.z.raw as int, b.z.raw as int),
    )
}

/// The value of a point moved along a vector.
pub open spec fn padd_v(a: Point, v: Vector) -> Point {
    Point {
        x: Fx { raw: fadd(a.x.raw as int, v.x.raw as int) as i64 },
        y: Fx { raw: fadd(a.y.raw as int, v.y.raw as int) as i64 },
        z: Fx { raw: fadd(a.z.raw as int, v.z.raw as int) as i64 },
    }
}

/// The value of a point moved back along a vector.
pub open spec fn psubv_v(a: Point, v: Vector) -> Point {
    Point {
        x: Fx { raw: fsub(a.x.raw as int, v.x.raw as int) as i64 },
        y: Fx { raw: fsub(a.y.raw as int, v.y.raw as int) as i64 },
        z: Fx { raw: fsub(a.z.raw as int, v.z.raw as int) as i64 },
    }
}

/// A location in space measured from the origin along the three axes.
#[derive(Clone, Copy, Debug, PartialEq, Eq, Structural)]
pub struct Point {
    /// Distance from the origin along the x axis.
    pub x: Fx,
    /// Distance from the origin along the y axis.
    pub y: Fx,
    /// Distance from the origin along the z axis.
    pub z: Fx,
}

impl Point {
    /// All three coordinates lie in the representable range.
    pub open spec fn wf(self) -> bool {
        self.x.wf() && self.y.wf() && self.z.wf()
    }

    /// Create a point from its three coordinates.
    pub fn new(x: Fx, y: Fx, z: Fx) -> (r: Point)
        ensures
            r == (Point { x, y, z }),
    {
        Point { x, y, z }
    }

    /// Move a point along a vector.
    pub fn add(self, o: Vector) -> (r: Point)
        ensures
            r.x.raw as int == fadd(self.x.raw as int, o.x.raw as int),
            r.y.raw as int == fadd(self.y.raw as int, o.y.raw as int),
            r.z.raw as int == fadd(self.z.raw as int, o.z.raw as int),
            r == padd_v(self, o),
            r.wf(),
    {
        Point { x: self.x.add(o.x), y: self.y.add(o.y), z: self.z.add(o.z) }
    }

    /// The vector leading from `o` to `self`.
    pub fn sub(self, o: Point) -> (r: Vector)
        ensures
            r.x.raw as int == fsub(self.x.raw as int, o.x.raw as int),
            r.y.raw as int == fsub(self.y.raw as int, o.y.raw as int),
            r.z.raw as int == fsub(self.z.raw as int, o.z.raw as int),
            r == psub(self, o),
            r.wf(),
    {
        Vector { x: self.x.sub(o.x), y: self.y.sub(o.y), z: self.z.sub(o.z) }
    }

    /// Move a point back along a vector.
    pub fn sub_vec(self, o: Vector) -> (r: Point)
        ensures
            r.x.raw as int == fsub(self.x.raw as int, o.x.raw as int),
            r.y.raw as int == fsub(self.y.raw as int, o.y.raw as int),
            r.z.raw as int == fsub(self.z.raw as int, o.z.raw as int),
            r == psubv_v(self, o),
            r.wf(),
    {
        Point { x: self.x.sub(o.x), y: self.y.sub(o.y), z: self.z.sub(o.z) }
    }

    /// The point mirrored through the origin.
    pub fn neg(self) -> (r: Point)
        ensures
            r.x.raw as int == clampi(-(self.x.raw as int)),
            r.y.raw as int == clampi(-(self.y.raw as int)),
            r.z.raw as int == clampi(-(self.z.raw as int)),
            r.wf(),
    {
        Point { x: self.x.neg(), y: self.y.neg(), z: self.z.neg() }
    }

    /// Scale every coordinate by a scalar.
    pub fn mul(self, s: Fx) -> (r: Point)
        ensures
            r.x.raw as int == fmul(self.x.raw as int, s.raw as int),
            r.y.raw as int == fmul(self.y.raw as int, s.raw as int),
            r.z.raw as int == fmul(self.z.raw as int, s.raw as int),
            r.wf(),
    {
        Point { x: self.x.mul(s), y: self.y.mul(s), z: self.z.mul(s) }
    }

    /// Divide every coordinate by a scalar.
    pub fn div(self, s: Fx) -> (r: Point)
        requires
            s.raw != 0,
        ensures
            r.x.raw as int == fdiv(self.x.raw as int, s.raw as int),
            r.y.raw as int == fdiv(self.y.raw as int, s.raw as int),
            r.z.raw as int == fdiv(self.z.raw as int, s.raw as int),
            r.wf(),
    {
        Point { x: self.x.div(s), y: self.y.div(s), z: self.z.div(s) }
    }

    /// Coordinate-wise comparison within the fixed tolerance.
    pub fn approx_eq(self, o: Point) -> (r: bool)
        ensures
            r == (fx_eq(self.x.raw as int, o.x.raw as int) && fx_eq(
                self.y.raw as int,
                o.y.raw as int,
            ) && fx_eq(self.z.raw as int, o.z.raw as int)),
    {
        self.x.approx_eq(o.x) && self.y.approx_eq(o.y) && self.z.approx_eq(o.z)
    }
}

} // verus!

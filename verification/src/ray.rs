//! A ray: a starting point and a direction carried off to infinity.

use vstd::prelude::*;
use crate::fx::Fx;
use crate::fx::SCALE;
use crate::fx::fadd;
use crate::fx::fmul;
use crate::matrix::Matrix;
use crate::matrix::apply_g;
use crate::matrix::grid;
use crate::matrix::grid_wf;
use crate::point::Point;
use crate::vector::Vector;

verus! {

/// A line which starts at a point and goes off in one direction to infinity.
#[derive(Clone, Copy, Debug, PartialEq, Eq, Structural)]
pub struct Ray {
    /// The starting point of the ray.
    pub origin: Point,
    /// The direction the ray travels.
    pub direction: Vector,
}

/// The value of a ray carried through a grid: the origin moves as a point,
/// the direction as a vector.
pub open spec fn ray_through(g: Seq<Seq<int>>, r: Ray) -> Ray {
    Ray {
        origin: Point {
            x: Fx {
                raw: apply_g(
                    g,
                    0,
                    r.origin.x.raw as int,
                    r.origin.y.raw as int,
                    r.origin.z.raw as int,
                    SCALE as int,
                ) as i64,
            },
            y: Fx {
                raw: apply_g(
                    g,
                    1,
                    r.origin.x.raw as int,
                    r.origin.y.raw as int,
                    r.origin.z.raw as int,
                    SCALE as int,
                ) as i64,
            },
            z: Fx {
                raw: apply_g(
                    g,
                    2,
                    r.origin.x.raw as int,
                    r.origin.y.raw as int,
                    r.origin.z.raw as int,
                    SCALE as int,
                ) as i64,
            },
        },
        direction: Vector {
            x: Fx {
                raw: apply_g(
                    g,
                    0,
                    r.direction.x.raw as int,
                    r.direction.y.raw as int,
                    r.direction.z.raw as int,
                    0,
                ) as i64,
            },
            y: Fx {
                raw: apply_g(
                    g,
                    1,
                    r.direction.x.raw as int,
                    r.direction.y.raw as int,
                    r.direction.z.raw as int,
                    0,
                ) as i64,
            },
            z: Fx {
                raw: apply_g(
                    g,
                    2,
                    r.direction.x.raw as int,
                    r.direction.y.raw as int,
                    r.direction.z.raw as int,
                    0,
                ) as i64,
            },
        },
    }
}

/// The value of the point a distance `t` along a ray.
pub open spec fn position_v(r: Ray, t: int) -> Point {
    Point {
        x: Fx { raw: fadd(r.origin.x.raw as int, fmul(r.direction.x.raw as int, t)) as i64 },
        y: Fx { raw: fadd(r.origin.y.raw as int, fmul(r.direction.y.raw as int, t)) as i64 },
        z: Fx { raw: fadd(r.origin.z.raw as int, fmul(r.direction.z.raw as int, t)) as i64 },
    }
}

impl Ray {
    /// Origin and direction both lie in the representable range.
    pub open spec fn wf(self) -> bool {
        self.origin.wf() && self.direction.wf()
    }

    /// Create a ray from an origin and a direction.
    pub fn new(origin: Point, direction: Vector) -> (r: Ray)
        ensures
            r == (Ray { origin, direction }),
    {
        Ray { origin, direction }
    }

    /// The point lying a distance `t` along the ray.
    pub fn position(&self, t: Fx) -> (r: Point)
        ensures
            r.x.raw as int == fadd(
                self.origin.x.raw as int,
                fmul(self.direction.x.raw as int, t.raw as int),
            ),
            r.y.raw as int == fadd(
                self.origin.y.raw as int,
                fmul(self.direction.y.raw as int, t.raw as int),
            ),
            r.z.raw as int == fadd(
                self.origin.z.raw as int,
                fmul(self.direction.z.raw as int, t.raw as int),
            ),
            r == position_v(*self, t.raw as int),
            r.wf(),
    {
        self.origin.add(self.direction.mul(t))
    }

    /// Carry the ray through a transformation matrix.
    pub fn transform(&self, transformation: &Matrix) -> (r: Ray)
        requires
            grid_wf(transformation.data),
            self.wf(),
        ensures
            r == ray_through(grid(transformation.data), *self),
            r.wf(),
    {
        Ray {
            origin: transformation.mul_point(self.origin),
            direction: transformation.mul_vector(self.direction),
        }
    }
}

} // verus!

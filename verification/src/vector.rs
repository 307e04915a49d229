//! Directions in space: three fixed-point components.

use vstd::prelude::*;
use crate::fx::Fx;
use crate::fx::SCALE;
use crate::fx::clampi;
use crate::fx::tdiv;
use crate::fx::fadd;
use crate::fx::fsub;
use crate::fx::fmul;
use crate::fx::fdiv;
use crate::fx::fmsub;
use crate::fx::fx_eq;
use crate::fx::sqrt_i;
use crate::fx::lemma_mul_lim_fits;
use crate::fx::rescale128;
use crate::fx::isqrt_wide;

verus! {

/// An arrow in space: a direction with a length, no fixed position.
#[derive(Clone, Copy, Debug, PartialEq, Eq, Structural)]
pub struct Vector {
    /// Component along the x axis.
    pub x: Fx,
    /// Component along the y axis.
    pub y: Fx,
    /// Component along the z axis.
    pub z: Fx,
}

/// The raw value of the dot product of two vectors, rescaled only once.
pub open spec fn dot_raw(a: Vector, b: Vector) -> int {
    clampi(
        tdiv(
            a.x.raw * b.x.raw + a.y.raw * b.y.raw + a.z.raw * b.z.raw,
            SCALE as int,
        ),
    )
}

/// The raw value of the magnitude of a vector.
pub open spec fn magnitude_raw(a: Vector) -> int {
    clampi(sqrt_i(a.x.raw * a.x.raw + a.y.raw * a.y.raw + a.z.raw * a.z.raw))
}

/// A vector assembled from raw component values.
pub open spec fn vec_raw(x: int, y: int, z: int) -> Vector {
    Vector { x: Fx { raw: x as i64 }, y: Fx { raw: y as i64 }, z: Fx { raw: z as i64 } }
}

/// The value of a vector difference.
pub open spec fn sub_v(a: Vector, b: Vector) -> Vector {
    vec_raw(
        fsub(a.x.raw as int, b.x.raw as int),
        fsub(a.y.raw as int, b.y.raw as int),
        fsub(a.z.raw as int, b.z.raw as int),
    )
}

/// The value of a vector sum.
pub open spec fn add_v(a: Vector, b: Vector) -> Vector {
    vec_raw(
        fadd(a.x.raw as int, b.x.raw as int),
        fadd(a.y.raw as int, b.y.raw as int),
        fadd(a.z.raw as int, b.z.raw as int),
    )
}

/// The value of a vector scaled by a raw scalar.
pub open spec fn mul_v(a: Vector, s: int) -> Vector {
    vec_raw(fmul(a.x.raw as int, s), fmul(a.y.raw as int, s), fmul(a.z.raw as int, s))
}

/// The value of a negated vector.
pub open spec fn neg_v(a: Vector) -> Vector {
    vec_raw(clampi(-(a.x.raw as int)), clampi(-(a.y.raw as int)), clampi(-(a.z.raw as int)))
}

/// The value of a cross product.
pub open spec fn cross_v(a: Vector, b: Vector) -> Vector {
    vec_raw(
        fmsub(a.y.raw as int, b.z.raw as int, a.z.raw as int, b.y.raw as int),
        fmsub(a.z.raw as int, b.x.raw as int, a.x.raw as int, b.z.raw as int),
        fmsub(a.x.raw as int, b.y.raw as int, a.y.raw as int, b.x.raw as int),
    )
}

/// The value of a normalized vector; the zero vector is kept as is.
pub open spec fn norm_v(a: Vector) -> Vector {
    if magnitude_raw(a) == 0 {
        a
    } else {
        vec_raw(
            fdiv(a.x.raw as int, magnitude_raw(a)),
            fdiv(a.y.raw as int, magnitude_raw(a)),
            fdiv(a.z.raw as int, magnitude_raw(a)),
        )
    }
}

/// The value of a vector reflected about a surface normal.
pub open spec fn reflect_v(a: Vector, n: Vector) -> Vector {
    let twice = fmul(clampi(2 * SCALE), dot_raw(a, n));
    vec_raw(
        fsub(a.x.raw as int, fmul(n.x.raw as int, twice)),
        fsub(a.y.raw as int, fmul(n.y.raw as int, twice)),
        fsub(a.z.raw as int, fmul(n.z.raw as int, twice)),
    )
}

impl Vector {
    /// All three components lie in the representable range.
    pub open spec fn wf(self) -> bool {
        self.x.wf() && self.y.wf() && self.z.wf()
    }

    /// Create a vector from its three components.
    pub fn new(x: Fx, y: Fx, z: Fx) -> (r: Vector)
        ensures
            r == (Vector { x, y, z }),
    {
        Vector { x, y, z }
    }

    /// Sum of two vectors, component by component.
    pub fn add(self, o: Vector) -> (r: Vector)
        ensures
            r.x.raw as int == fadd(self.x.raw as int, o.x.raw as int),
            r.y.raw as int == fadd(self.y.raw as int, o.y.raw as int),
            r.z.raw as int == fadd(self.z.raw as int, o.z.raw as int),
            r == add_v(self, o),
            r.wf(),
    {
        Vector { x: self.x.add(o.x), y: self.y.add(o.y), z: self.z.add(o.z) }
    }

    /// Difference of two vectors, component by component.
    pub fn sub(self, o: Vector) -> (r: Vector)
        ensures
            r.x.raw as int == fsub(self.x.raw as int, o.x.raw as int),
            r.y.raw as int == fsub(self.y.raw as int, o.y.raw as int),
            r.z.raw as int == fsub(self.z.raw as int, o.z.raw as int),
            r == sub_v(self, o),
            r.wf(),
    {
        Vector { x: self.x.sub(o.x), y: self.y.sub(o.y), z: self.z.sub(o.z) }
    }

    /// The vector pointing the opposite way.
    pub fn neg(self) -> (r: Vector)
        ensures
            r.x.raw as int == clampi(-(self.x.raw as int)),
            r.y.raw as int == clampi(-(self.y.raw as int)),
            r.z.raw as int == clampi(-(self.z.raw as int)),
            r == neg_v(self),
            r.wf(),
    {
        Vector { x: self.x.neg(), y: self.y.neg(), z: self.z.neg() }
    }

    /// Scale every component by a scalar.
    pub fn mul(self, s: Fx) -> (r: Vector)
        ensures
            r.x.raw as int == fmul(self.x.raw as int, s.raw as int),
            r.y.raw as int == fmul(self.y.raw as int, s.raw as int),
            r.z.raw as int == fmul(self.z.raw as int, s.raw as int),
            r == mul_v(self, s.raw as int),
            r.wf(),
    {
        Vector { x: self.x.mul(s), y: self.y.mul(s), z: self.z.mul(s) }
    }

    /// Divide every component by a scalar.
    pub fn div(self, s: Fx) -> (r: Vector)
        requires
            s.raw != 0,
        ensures
            r.x.raw as int == fdiv(self.x.raw as int, s.raw as int),
            r.y.raw as int == fdiv(self.y.raw as int, s.raw as int),
            r.z.raw as int == fdiv(self.z.raw as int, s.raw as int),
            r.wf(),
    {
        Vector { x: self.x.div(s), y: self.y.div(s), z: self.z.div(s) }
    }

    /// Sum of the products of corresponding components.
    pub fn dot(self, o: Vector) -> (r: Fx)
        requires
            self.wf(),
            o.wf(),
        ensures
            r.raw as int == dot_raw(self, o),
            r.wf(),
    {
        proof {
            lemma_mul_lim_fits(self.x.raw as int, o.x.raw as int);
            lemma_mul_lim_fits(self.y.raw as int, o.y.raw as int);
            lemma_mul_lim_fits(self.z.raw as int, o.z.raw as int);
        }
        let s: i128 = (self.x.raw as i128) * (o.x.raw as i128) + (self.y.raw as i128) * (
        o.y.raw as i128) + (self.z.raw as i128) * (o.z.raw as i128);
        Fx { raw: rescale128(s) }
    }

    /// The vector perpendicular to both `self` and `o`.
    pub fn cross(self, o: Vector) -> (r: Vector)
        requires
            self.wf(),
            o.wf(),
        ensures
            r.x.raw as int == fmsub(
                self.y.raw as int,
                o.z.raw as int,
                self.z.raw as int,
                o.y.raw as int,
            ),
            r.y.raw as int == fmsub(
                self.z.raw as int,
                o.x.raw as int,
                self.x.raw as int,
                o.z.raw as int,
            ),
            r.z.raw as int == fmsub(
                self.x.raw as int,
                o.y.raw as int,
                self.y.raw as int,
                o.x.raw as int,
            ),
            r == cross_v(self, o),
            r.wf(),
    {
        Vector {
            x: Fx::msub(self.y, o.z, self.z, o.y),
            y: Fx::msub(self.z, o.x, self.x, o.z),
            z: Fx::msub(self.x, o.y, self.y, o.x),
        }
    }

    /// Length of the vector.
    pub fn magnitude(self) -> (r: Fx)
        requires
            self.wf(),
        ensures
            r.raw as int == magnitude_raw(self),
            r.raw >= 0,
            r.wf(),
    {
        proof {
            lemma_mul_lim_fits(self.x.raw as int, self.x.raw as int);
            lemma_mul_lim_fits(self.y.raw as int, self.y.raw as int);
            lemma_mul_lim_fits(self.z.raw as int, self.z.raw as int);
            crate::fx::lemma_square_nonneg(self.x.raw as int);
            crate::fx::lemma_square_nonneg(self.y.raw as int);
            crate::fx::lemma_square_nonneg(self.z.raw as int);
        }
        let s: i128 = (self.x.raw as i128) * (self.x.raw as i128) + (self.y.raw as i128) * (
        self.y.raw as i128) + (self.z.raw as i128) * (self.z.raw as i128);
        Fx { raw: isqrt_wide(s) }
    }

    /// The unit vector pointing the same way; the zero vector is kept as is.
    pub fn normalize(self) -> (r: Vector)
        requires
            self.wf(),
        ensures
            magnitude_raw(self) == 0 ==> r == self,
            magnitude_raw(self) != 0 ==> r.x.raw as int == fdiv(
                self.x.raw as int,
                magnitude_raw(self),
            ),
            magnitude_raw(self) != 0 ==> r.y.raw as int == fdiv(
                self.y.raw as int,
                magnitude_raw(self),
            ),
            magnitude_raw(self) != 0 ==> r.z.raw as int == fdiv(
                self.z.raw as int,
                magnitude_raw(self),
            ),
            r == norm_v(self),
            r.wf(),
    {
        let m: Fx = self.magnitude();
        if m.raw == 0 {
            self
        } else {
            self.div(m)
        }
    }

    /// Reflect the vector about a surface normal.
    pub fn reflect(self, normal: Vector) -> (r: Vector)
        requires
            self.wf(),
            normal.wf(),
        ensures
            ({
                let twice = fmul(clampi(2 * SCALE), dot_raw(self, normal));
                &&& r.x.raw as int == fsub(self.x.raw as int, fmul(normal.x.raw as int, twice))
                &&& r.y.raw as int == fsub(self.y.raw as int, fmul(normal.y.raw as int, twice))
                &&& r.z.raw as int == fsub(self.z.raw as int, fmul(normal.z.raw as int, twice))
            }),
            r == reflect_v(self, normal),
            r.wf(),
    {
        let d: Fx = self.dot(normal);
        let twice: Fx = Fx::from_int(2).mul(d);
        self.sub(normal.mul(twice))
    }

    /// Component-wise comparison within the fixed tolerance.
    pub fn approx_eq(self, o: Vector) -> (r: bool)
        ensures
            r == (fx_eq(self.x.raw as int, o.x.raw as int) && fx_eq(
                self.y.raw as int,
                o.y.raw as int,
            ) && fx_eq(self.z.raw as int, o.z.raw as int)),
    {
        self.x.approx_eq(o.x) && self.y.approx_eq(o.y) && self.z.approx_eq(o.z)
    }
}

} // verus!

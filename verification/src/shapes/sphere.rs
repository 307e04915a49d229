//! The unit sphere: perfectly round, radius one, centered on the origin.

use vstd::prelude::*;
use crate::fx::Fx;
use crate::fx::SCALE;
use crate::fx::clampi;
use crate::fx::fadd;
use crate::fx::fsub;
use crate::fx::fmul;
use crate::fx::fdiv;
use crate::fx::sqrt_i;
use crate::material::Material;
use crate::matrix::Matrix;
use crate::point::Point;
use crate::point::psub;
use crate::ray::Ray;
use crate::vector::Vector;
use crate::vector::dot_raw;

verus! {

/// A sphere of radius one centered on the origin of its object space.
#[derive(Clone, Debug)]
pub struct Sphere {
    /// The identity token of the shape.
    pub id: uuid::Uuid,
    /// The identity of the group or combination holding the shape, if any.
    pub parent_id: Option<uuid::Uuid>,
    /// The object-to-parent-space transformation.
    pub transform: Matrix,
    /// The look of the shape's surface.
    pub material: Material,
}

/// The origin of object space.
pub open spec fn origin0() -> Point {
    Point { x: Fx { raw: 0 }, y: Fx { raw: 0 }, z: Fx { raw: 0 } }
}

/// The distances at which a ray meets the unit sphere, solved from the
/// quadratic the ray substitutes into the sphere's equation: nothing when
/// the discriminant is negative or the quadratic degenerates, else the two
/// roots in ascending order.
pub open spec fn sphere_ts(r: Ray) -> Option<(int, int)> {
    let sr = psub(r.origin, origin0());
    let a = dot_raw(r.direction, r.direction);
    let b = fmul(clampi(2 * SCALE), dot_raw(r.direction, sr));
    let c = fsub(dot_raw(sr, sr), SCALE as int);
    let disc = fsub(fmul(b, b), fmul(fmul(clampi(4 * SCALE), a), c));
    let den = fmul(clampi(2 * SCALE), a);
    if disc < 0 || den == 0 {
        None
    } else {
        let sq = clampi(sqrt_i(disc * (SCALE as int)));
        Some((fdiv(fsub(clampi(-b), sq), den), fdiv(fadd(clampi(-b), sq), den)))
    }
}

impl Sphere {
    /// The shape's transformation and material are representable.
    pub open spec fn wf(self) -> bool {
        self.transform.wf() && self.material.wf()
    }

    /// Create a unit sphere with a fresh identity, the identity transform
    /// and the default material.
    pub fn new() -> (r: Sphere)
        ensures
            r.parent_id is None,
            r.transform.inverse == r.transform.data,
            crate::matrix::grid(r.transform.data) == crate::matrix::identity_g(),
            r.material == Material::new_v(),
            r.wf(),
    {
        Sphere {
            id: crate::identity::fresh_id(),
            parent_id: None,
            transform: Matrix::identity(),
            material: Material::new(),
        }
    }

    /// Solve the quadratic for a ray already in object space.
    pub fn ts(&self, r: &Ray) -> (res: Option<(Fx, Fx)>)
        requires
            r.wf(),
        ensures
            match res {
                Some((t1, t2)) => {
                    &&& sphere_ts(*r) == Some((t1.raw as int, t2.raw as int))
                    &&& t1.wf()
                    &&& t2.wf()
                },
                None => sphere_ts(*r) is None,
            },
    {
        let sphere_to_ray = r.origin.sub(Point::new(Fx::zero(), Fx::zero(), Fx::zero()));
        let a = r.direction.dot(r.direction);
        let b = Fx::from_int(2).mul(r.direction.dot(sphere_to_ray));
        let c = sphere_to_ray.dot(sphere_to_ray).sub(Fx::one());
        let discriminant = b.mul(b).sub(Fx::from_int(4).mul(a).mul(c));
        let den = Fx::from_int(2).mul(a);
        if discriminant.raw < 0 || den.raw == 0 {
            None
        } else {
            let sq = discriminant.sqrt();
            Some(((b.neg().sub(sq)).div(den), (b.neg().add(sq)).div(den)))
        }
    }
}

} // verus!

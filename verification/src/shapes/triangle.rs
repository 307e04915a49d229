//! Flat and smooth triangles, met by the Moeller-Trumbore test.

use vstd::prelude::*;
use crate::fx::Fx;
use crate::fx::EPSILON;
use crate::fx::SCALE;
use crate::fx::absi;
use crate::fx::fmul;
use crate::fx::fdiv;
use crate::material::Material;
use crate::matrix::Matrix;
use crate::point::Point;
use crate::point::psub;
use crate::ray::Ray;
use crate::vector::Vector;
use crate::vector::cross_v;
use crate::vector::dot_raw;
use crate::vector::norm_v;

verus! {

/// A triangle over three corners.  A smooth triangle also carries a normal
/// at each corner and blends them across the face.
#[derive(Clone, Debug)]
pub struct Triangle {
    /// The identity token of the shape.
    pub id: uuid::Uuid,
    /// The identity of the group or combination holding the shape, if any.
    pub parent_id: Option<uuid::Uuid>,
    /// The object-to-parent-space transformation.
    pub transform: Matrix,
    /// The look of the shape's surface.
    pub material: Material,
    /// The first corner.
    pub p1: Point,
    /// The second corner.
    pub p2: Point,
    /// The third corner.
    pub p3: Point,
    /// The normal at the first corner, on a smooth triangle.
    pub n1: Option<Vector>,
    /// The normal at the second corner, on a smooth triangle.
    pub n2: Option<Vector>,
    /// The normal at the third corner, on a smooth triangle.
    pub n3: Option<Vector>,
    /// The edge from the first corner to the second.
    pub e1: Vector,
    /// The edge from the first corner to the third.
    pub e2: Vector,
    /// The flat face normal.
    pub normal: Vector,
    /// Whether the triangle blends its corner normals.
    pub smooth: bool,
}

/// The meeting of a ray with a triangle's face: the distance and the two
/// barycentric coordinates, or nothing when the ray runs parallel to the
/// face or misses it.
pub open spec fn tri_hit(t: Triangle, r: Ray) -> Option<(int, int, int)> {
    let dce2 = cross_v(r.direction, t.e2);
    let det = dot_raw(t.e1, dce2);
    if absi(det) < EPSILON as int {
        None
    } else {
        let f = fdiv(SCALE as int, det);
        let p1o = psub(r.origin, t.p1);
        let u = fmul(f, dot_raw(p1o, dce2));
        if u < 0 || u > SCALE as int {
            None
        } else {
            let oce1 = cross_v(p1o, t.e1);
            let v = fmul(f, dot_raw(r.direction, oce1));
            if v < 0 || u + v > SCALE as int {
                None
            } else {
                Some((fmul(f, dot_raw(t.e2, oce1)), u, v))
            }
        }
    }
}

impl Triangle {
    /// The shape's parts are representable.
    pub open spec fn wf(self) -> bool {
        &&& self.transform.wf()
        &&& self.material.wf()
        &&& self.p1.wf()
        &&& self.p2.wf()
        &&& self.p3.wf()
        &&& self.e1.wf()
        &&& self.e2.wf()
        &&& self.normal.wf()
        &&& match self.n1 {
            Some(n) => n.wf(),
            None => true,
        }
        &&& match self.n2 {
            Some(n) => n.wf(),
            None => true,
        }
        &&& match self.n3 {
            Some(n) => n.wf(),
            None => true,
        }
        &&& (self.smooth ==> self.n1 is Some && self.n2 is Some && self.n3 is Some)
    }

    /// Create a flat triangle over three corners, precomputing its edges
    /// and face normal.
    pub fn new(p1: Point, p2: Point, p3: Point) -> (r: Triangle)
        requires
            p1.wf(),
            p2.wf(),
            p3.wf(),
        ensures
            r.parent_id is None,
            r.transform.inverse == r.transform.data,
            crate::matrix::grid(r.transform.data) == crate::matrix::identity_g(),
            r.material == Material::new_v(),
            r.p1 == p1,
            r.p2 == p2,
            r.p3 == p3,
            r.n1 is None && r.n2 is None && r.n3 is None,
            r.e1 == psub(p2, p1),
            r.e2 == psub(p3, p1),
            r.normal == norm_v(cross_v(psub(p3, p1), psub(p2, p1))),
            !r.smooth,
            r.wf(),
    {
        let e1 = p2.sub(p1);
        let e2 = p3.sub(p1);
        let normal = p3.sub(p1).cross(p2.sub(p1)).normalize();
        Triangle {
            id: crate::identity::fresh_id(),
            parent_id: None,
            transform: Matrix::identity(),
            material: Material::new(),
            p1,
            p2,
            p3,
            n1: None,
            n2: None,
            n3: None,
            e1,
            e2,
            normal,
            smooth: false,
        }
    }

    /// Create a smooth triangle: three corners with a normal at each, to be
    /// blended across the face.
    pub fn smooth_triangle(p1: Point, p2: Point, p3: Point, n1: Vector, n2: Vector, n3: Vector) -> (r:
        Triangle)
        requires
            p1.wf(),
            p2.wf(),
            p3.wf(),
            n1.wf(),
            n2.wf(),
            n3.wf(),
        ensures
            r.parent_id is None,
            r.transform.inverse == r.transform.data,
            crate::matrix::grid(r.transform.data) == crate::matrix::identity_g(),
            r.material == Material::new_v(),
            r.p1 == p1 && r.p2 == p2 && r.p3 == p3,
            r.n1 == Some(n1) && r.n2 == Some(n2) && r.n3 == Some(n3),
            r.e1 == psub(p2, p1),
            r.e2 == psub(p3, p1),
            r.normal == norm_v(cross_v(psub(p3, p1), psub(p2, p1))),
            r.smooth,
            r.wf(),
    {
        let e1 = p2.sub(p1);
        let e2 = p3.sub(p1);
        let normal = p3.sub(p1).cross(p2.sub(p1)).normalize();
        Triangle {
            id: crate::identity::fresh_id(),
            parent_id: None,
            transform: Matrix::identity(),
            material: Material::new(),
            p1,
            p2,
            p3,
            n1: Some(n1),
            n2: Some(n2),
            n3: Some(n3),
            e1,
            e2,
            normal,
            smooth: true,
        }
    }

    /// The Moeller-Trumbore test for a ray already in object space.
    pub fn ts(&self, r: &Ray) -> (res: Option<(Fx, Fx, Fx)>)
        requires
            r.wf(),
            self.wf(),
        ensures
            match res {
                Some((t, u, v)) => {
                    &&& tri_hit(*self, *r) == Some((t.raw as int, u.raw as int, v.raw as int))
                    &&& t.wf()
                    &&& u.wf()
                    &&& v.wf()
                },
                None => tri_hit(*self, *r) is None,
            },
    {
        let dir_cross_e2 = r.direction.cross(self.e2);
        let det = self.e1.dot(dir_cross_e2);
        if det.abs().raw < EPSILON {
            return None;
        }
        let f = Fx::one().div(det);
        let p1_to_origin = r.origin.sub(self.p1);
        let u = f.mul(p1_to_origin.dot(dir_cross_e2));
        if u.raw < 0 || u.raw > SCALE {
            return None;
        }
        let origin_cross_e1 = p1_to_origin.cross(self.e1);
        let v = f.mul(r.direction.dot(origin_cross_e1));
        if v.raw < 0 || u.add(v).raw > SCALE {
            return None;
        }
        let t = f.mul(self.e2.dot(origin_cross_e1));
        Some((t, u, v))
    }
}

} // verus!

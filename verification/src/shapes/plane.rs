//! A perfectly flat surface extending infinitely in x and z.

use vstd::prelude::*;
use crate::fx::Fx;
use crate::fx::EPSILON;
use crate::fx::absi;
use crate::fx::clampi;
use crate::fx::fdiv;
use crate::material::Material;
use crate::matrix::Matrix;
use crate::ray::Ray;

verus! {

/// The plane through the origin with its normal along the positive y axis.
#[derive(Clone, Debug)]
pub struct Plane {
    /// The identity token of the shape.
    pub id: uuid::Uuid,
    /// The identity of the group or combination holding the shape, if any.
    pub parent_id: Option<uuid::Uuid>,
    /// The object-to-parent-space transformation.
    pub transform: Matrix,
    /// The look of the shape's surface.
    pub material: Material,
}

/// The distance at which a ray meets the plane: nothing when the ray runs
/// parallel to it within tolerance, else the one crossing point.
pub open spec fn plane_t(r: Ray) -> Option<int> {
    if absi(r.direction.y.raw as int) < EPSILON as int {
        None
    } else {
        Some(fdiv(clampi(-(r.origin.y.raw as int)), r.direction.y.raw as int))
    }
}

impl Plane {
    /// The shape's transformation and material are representable.
    pub open spec fn wf(self) -> bool {
        self.transform.wf() && self.material.wf()
    }

    /// Create a plane with a fresh identity, the identity transform and the
    /// default material.
    pub fn new() -> (r: Plane)
        ensures
            r.parent_id is None,
            r.transform.inverse == r.transform.data,
            crate::matrix::grid(r.transform.data) == crate::matrix::identity_g(),
            r.material == Material::new_v(),
            r.wf(),
    {
        Plane {
            id: crate::identity::fresh_id(),
            parent_id: None,
            transform: Matrix::identity(),
            material: Material::new(),
        }
    }

    /// The crossing distance for a ray already in object space.
    pub fn ts(&self, r: &Ray) -> (res: Option<Fx>)
        ensures
            match res {
                Some(t) => plane_t(*r) == Some(t.raw as int) && t.wf(),
                None => plane_t(*r) is None,
            },
    {
        let dy = r.direction.y.abs();
        if dy.raw < EPSILON {
            None
        } else {
            Some(r.origin.y.neg().div(r.direction.y))
        }
    }
}

} // verus!
